use nico::expected_machine::{DpuMode, HostLifecycleProfile};

#[test]
fn resolve_no_expected_mode_no_site_setting_returns_dpu_mode() {
    assert_eq!(DpuMode::resolve(None, None), DpuMode::DpuMode);
}

#[test]
fn resolve_explicit_per_host_dpu_mode_defers_to_site_setting() {
    assert_eq!(DpuMode::resolve(Some(DpuMode::DpuMode), None), DpuMode::DpuMode);
    assert_eq!(
        DpuMode::resolve(Some(DpuMode::DpuMode), Some(DpuMode::NicMode)),
        DpuMode::NicMode
    );
}

#[test]
fn resolve_per_host_nic_mode_always_wins() {
    for site_dpu_mode in [None, Some(DpuMode::DpuMode), Some(DpuMode::NoDpu)] {
        assert_eq!(
            DpuMode::resolve(Some(DpuMode::NicMode), site_dpu_mode),
            DpuMode::NicMode,
            "site_dpu_mode={site_dpu_mode:?}"
        );
    }
}

#[test]
fn resolve_per_host_no_dpu_always_wins() {
    for site_dpu_mode in [None, Some(DpuMode::DpuMode), Some(DpuMode::NicMode)] {
        assert_eq!(
            DpuMode::resolve(Some(DpuMode::NoDpu), site_dpu_mode),
            DpuMode::NoDpu,
            "site_dpu_mode={site_dpu_mode:?}"
        );
    }
}

#[test]
fn resolve_site_wide_nic_mode_applies_when_per_host_is_unset() {
    assert_eq!(DpuMode::resolve(None, Some(DpuMode::NicMode)), DpuMode::NicMode);
    assert_eq!(
        DpuMode::resolve(Some(DpuMode::DpuMode), Some(DpuMode::NicMode)),
        DpuMode::NicMode
    );
}

#[test]
fn resolve_site_wide_no_dpu_applies_when_per_host_is_unset() {
    assert_eq!(DpuMode::resolve(None, Some(DpuMode::NoDpu)), DpuMode::NoDpu);
    assert_eq!(
        DpuMode::resolve(Some(DpuMode::DpuMode), Some(DpuMode::NoDpu)),
        DpuMode::NoDpu
    );
}

#[test]
fn resolve_site_wide_dpu_mode_resolves_to_dpu_mode() {
    assert_eq!(DpuMode::resolve(None, Some(DpuMode::DpuMode)), DpuMode::DpuMode);
}

#[test]
fn is_dpu_managed_covers_both_skip_cases() {
    assert!(DpuMode::DpuMode.is_dpu_managed());
    assert!(!DpuMode::NicMode.is_dpu_managed());
    assert!(!DpuMode::NoDpu.is_dpu_managed());
}

#[test]
fn host_lifecycle_profile_is_empty_when_all_fields_none() {
    let hlp = HostLifecycleProfile::default();
    assert!(hlp.is_empty());

    let hlp = HostLifecycleProfile { disable_lockdown: Some(true) };
    assert!(!hlp.is_empty());

    let hlp = HostLifecycleProfile { disable_lockdown: Some(false) };
    assert!(!hlp.is_empty());
}

#[test]
fn resolving_the_resolved_mode_again_changes_nothing() {
    let modes = [None, Some(DpuMode::DpuMode), Some(DpuMode::NicMode), Some(DpuMode::NoDpu)];
    for e in modes {
        for s in modes {
            let r = DpuMode::resolve(e, s);
            assert_eq!(DpuMode::resolve(Some(r), s), r);
        }
    }
}

#[test]
fn default_dpu_mode_is_dpu_mode() {
    assert_eq!(DpuMode::default(), DpuMode::DpuMode);
}
