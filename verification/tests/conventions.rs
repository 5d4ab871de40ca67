use abi_cafe::abis::c::{CCFlavor, CcAbiImpl};
use abi_cafe::abis::{all_conventions, CallingConvention, Platform};
use abi_cafe::error::{GenerateError, UnsupportedError};

fn message(error: GenerateError) -> String {
    match error {
        GenerateError::Unsupported(UnsupportedError::Other(message)) => message,
        other => panic!("not a capability gap: {:?}", other),
    }
}

#[test]
fn c_needs_no_decoration() {
    for platform in [Platform::Windows, Platform::Linux, Platform::MacOS, Platform::Other] {
        for flavor in [CCFlavor::Clang, CCFlavor::Gcc, CCFlavor::Msvc] {
            let cc = CcAbiImpl::new(flavor, platform);
            assert_eq!(cc.convention_decl(CallingConvention::C).unwrap(), "");
        }
    }
}

#[test]
fn msvc_spells_conventions_as_keywords() {
    let cc = CcAbiImpl::new(CCFlavor::Msvc, Platform::Windows);
    assert_eq!(cc.convention_decl(CallingConvention::Cdecl).unwrap(), "__cdecl ");
    assert_eq!(cc.convention_decl(CallingConvention::Stdcall).unwrap(), "__stdcall ");
    assert_eq!(cc.convention_decl(CallingConvention::Fastcall).unwrap(), "__fastcall ");
    assert_eq!(cc.convention_decl(CallingConvention::Vectorcall).unwrap(), "__vectorcall ");
}

#[test]
fn other_compilers_spell_conventions_as_attributes() {
    for flavor in [CCFlavor::Clang, CCFlavor::Gcc] {
        let cc = CcAbiImpl::new(flavor, Platform::Windows);
        assert_eq!(cc.convention_decl(CallingConvention::Cdecl).unwrap(), "__attribute__((cdecl)) ");
        assert_eq!(
            cc.convention_decl(CallingConvention::Stdcall).unwrap(),
            "__attribute__((stdcall)) "
        );
        assert_eq!(
            cc.convention_decl(CallingConvention::Fastcall).unwrap(),
            "__attribute__((fastcall)) "
        );
        assert_eq!(
            cc.convention_decl(CallingConvention::Vectorcall).unwrap(),
            "__attribute__((vectorcall)) "
        );
    }
}

#[test]
fn x86_conventions_exist_on_windows_only() {
    for platform in [Platform::Linux, Platform::MacOS, Platform::Other] {
        let cc = CcAbiImpl::new(CCFlavor::Gcc, platform);
        let error = cc.convention_decl(CallingConvention::Stdcall).unwrap_err();
        assert_eq!(message(error), "unsupported convention stdcall");
        let error = cc.convention_decl(CallingConvention::Cdecl).unwrap_err();
        assert_eq!(message(error), "unsupported convention cdecl");
    }
}

#[test]
fn reserved_conventions_are_refused_everywhere() {
    let cc = CcAbiImpl::new(CCFlavor::Msvc, Platform::Windows);
    for (convention, name) in [
        (CallingConvention::System, "system"),
        (CallingConvention::Win64, "win64"),
        (CallingConvention::Sysv64, "sysv64"),
        (CallingConvention::Aapcs, "aapcs"),
    ] {
        let error = cc.convention_decl(convention).unwrap_err();
        assert_eq!(message(error), format!("unsupported convention {name}"));
    }
}

#[test]
fn resolving_twice_gives_the_same_answer() {
    for platform in [Platform::Windows, Platform::Linux] {
        for flavor in [CCFlavor::Clang, CCFlavor::Gcc, CCFlavor::Msvc] {
            let cc = CcAbiImpl::new(flavor, platform);
            for convention in all_conventions() {
                let first = cc.convention_decl(convention).map_err(message);
                let second = cc.convention_decl(convention).map_err(message);
                assert_eq!(first, second);
            }
        }
    }
}

#[test]
fn all_conventions_are_nine() {
    let all = all_conventions();
    assert_eq!(all.len(), 9);
    assert_eq!(all[0], CallingConvention::C);
    assert_eq!(all[0].name(), "c");
    assert_eq!(all[8].name(), "aapcs");
}
