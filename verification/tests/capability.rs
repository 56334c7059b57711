use nix::sys::capability::{cap_user_data_t, Capabilities, CapabilityFlags, CapabilityKind};

const KINDS: [CapabilityKind; 3] =
    [CapabilityKind::Effective, CapabilityKind::Permitted, CapabilityKind::Inheritable];

#[test]
fn empty_has_no_flag_in_any_set() {
    let caps = Capabilities::empty();
    for kind in KINDS {
        assert_eq!(caps.get(kind), CapabilityFlags { bits: 0 });
    }
    for record in caps.inner {
        assert_eq!(record.effective, 0);
        assert_eq!(record.permitted, 0);
        assert_eq!(record.inheritable, 0);
    }
}

#[test]
fn get_joins_the_upper_and_the_lower_word() {
    let caps = Capabilities {
        inner: [
            cap_user_data_t { effective: 0x0000_0021, permitted: 0xffff_ffff, inheritable: 0 },
            cap_user_data_t { effective: 0x0000_0004, permitted: 0, inheritable: 0x8000_0000 },
        ],
    };
    assert_eq!(caps.get(CapabilityKind::Effective).bits, 0x0000_0004_0000_0021);
    assert_eq!(caps.get(CapabilityKind::Permitted).bits, 0x0000_0000_ffff_ffff);
    assert_eq!(caps.get(CapabilityKind::Inheritable).bits, 0x8000_0000_0000_0000);
}

#[test]
fn set_splits_the_flags_into_two_words() {
    let mut caps = Capabilities::empty();
    caps.set(CapabilityKind::Permitted, CapabilityFlags { bits: 0x0000_0020_0020_0001 });
    assert_eq!(caps.inner[0].permitted, 0x0020_0001);
    assert_eq!(caps.inner[1].permitted, 0x0000_0020);
    assert_eq!(caps.get(CapabilityKind::Permitted).bits, 0x0000_0020_0020_0001);
}

#[test]
fn set_leaves_the_other_sets() {
    let mut caps = Capabilities::empty();
    caps.set(CapabilityKind::Effective, CapabilityFlags { bits: 1 << 21 });
    caps.set(CapabilityKind::Inheritable, CapabilityFlags { bits: (1 << 37) | (1 << 5) });
    assert_eq!(caps.get(CapabilityKind::Effective).bits, 1 << 21);
    assert_eq!(caps.get(CapabilityKind::Permitted).bits, 0);
    assert_eq!(caps.get(CapabilityKind::Inheritable).bits, (1 << 37) | (1 << 5));
    assert_eq!(caps.inner[0].effective, 1 << 21);
    assert_eq!(caps.inner[1].effective, 0);
    assert_eq!(caps.inner[0].inheritable, 1 << 5);
    assert_eq!(caps.inner[1].inheritable, 1 << 5);
}

#[test]
fn set_replaces_what_the_set_held() {
    let mut caps = Capabilities::empty();
    caps.set(CapabilityKind::Effective, CapabilityFlags { bits: u64::MAX });
    assert_eq!(caps.get(CapabilityKind::Effective).bits, u64::MAX);
    caps.set(CapabilityKind::Effective, CapabilityFlags { bits: 2 });
    assert_eq!(caps.get(CapabilityKind::Effective).bits, 2);
    assert_eq!(caps.inner[1].effective, 0);
}

#[test]
fn set_all_gives_every_set_the_same_flags() {
    let mut caps = Capabilities::empty();
    caps.set(CapabilityKind::Permitted, CapabilityFlags { bits: 0xff });
    caps.set_all(CapabilityFlags { bits: 0x0000_003f_ffff_ffff });
    for kind in KINDS {
        assert_eq!(caps.get(kind).bits, 0x0000_003f_ffff_ffff);
    }
    for word in [caps.inner[0].effective, caps.inner[0].permitted, caps.inner[0].inheritable] {
        assert_eq!(word, 0xffff_ffff);
    }
    for word in [caps.inner[1].effective, caps.inner[1].permitted, caps.inner[1].inheritable] {
        assert_eq!(word, 0x3f);
    }
}

#[test]
fn kinds_compare_by_name() {
    assert_eq!(CapabilityKind::Effective, CapabilityKind::Effective);
    assert_ne!(CapabilityKind::Effective, CapabilityKind::Permitted);
    assert_ne!(CapabilityKind::Permitted, CapabilityKind::Inheritable);
}
