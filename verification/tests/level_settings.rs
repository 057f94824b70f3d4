use level_settings::bounded::BoundedU8;
use level_settings::level::{LevelSetting, VolumeSetting};
use level_settings::percent::percent_string;
use level_settings::settings::{
    handle_volume_action, process_volume_action, update_scope_display, BinaryAdjustment,
    GameSettings, LevelSettingAction, ScopeDisplay, VolumeSettingScope,
};

fn up(scope: VolumeSettingScope) -> LevelSettingAction<VolumeSettingScope> {
    LevelSettingAction {
        adjustment: BinaryAdjustment::Up,
        scope,
    }
}

fn down(scope: VolumeSettingScope) -> LevelSettingAction<VolumeSettingScope> {
    LevelSettingAction {
        adjustment: BinaryAdjustment::Down,
        scope,
    }
}

#[test]
fn bounded_from_raw_keeps_value() {
    let v = BoundedU8::<0, 10>::from_raw(7);
    assert_eq!(v.raw(), 7);
    let lo = BoundedU8::<3, 9>::from_raw(3);
    assert_eq!(lo.raw(), 3);
    let hi = BoundedU8::<3, 9>::from_raw(9);
    assert_eq!(hi.raw(), 9);
}

#[test]
fn bounded_add_saturates_at_max() {
    let v = BoundedU8::<0, 10>::from_raw(3);
    assert_eq!(v.add(1).raw(), 4);
    assert_eq!(v.add(7).raw(), 10);
    assert_eq!(v.add(8).raw(), 10);
    assert_eq!(v.add(250).raw(), 10);
    assert_eq!(v.add(255).raw(), 10);
}

#[test]
fn bounded_sub_saturates_at_min() {
    let v = BoundedU8::<2, 10>::from_raw(4);
    assert_eq!(v.sub(1).raw(), 3);
    assert_eq!(v.sub(2).raw(), 2);
    assert_eq!(v.sub(3).raw(), 2);
    assert_eq!(v.sub(200).raw(), 2);
}

#[test]
fn fraction_stays_in_unit_interval() {
    for raw in 0..=10u8 {
        let level = VolumeSetting::from_raw(raw);
        let (num, den) = level.fraction_parts();
        assert!(num <= den);
        assert_eq!(den, 10);
    }
}

#[test]
fn from_fraction_truncates_toward_zero() {
    // DIFF = 10; fraction 1/3 gives raw 0 + (10 * 1) / 3 = 3.
    let third = VolumeSetting::from_fraction(1, 3);
    assert_eq!(third.raw(), 3);
    // Granularity: the resulting fraction 3/10 lies within 1/10 of 1/3:
    // DIFF*num - den < raw*den <= DIFF*num, i.e. 10 - 3 < 9 <= 10.
    assert!(10 * 1 - 3 < 3 * 3 && 3 * 3 <= 10 * 1);
    let half = VolumeSetting::from_fraction(1, 2);
    assert_eq!(half.raw(), 5);
    let zero = VolumeSetting::from_fraction(0, 1);
    assert_eq!(zero.raw(), 0);
    let one = VolumeSetting::from_fraction(1, 1);
    assert_eq!(one.raw(), 10);
}

#[test]
fn divisor_constructors_are_deterministic() {
    for d in 1..=12u8 {
        let a = VolumeSetting::from_divisor_added(d);
        let b = VolumeSetting::from_divisor_added(d);
        assert!(a == b);
        assert_eq!(a.raw(), b.raw());
        let c = VolumeSetting::from_divisor_removed(d);
        let e = VolumeSetting::from_divisor_removed(d);
        assert!(c == e);
        assert_eq!(c.raw(), e.raw());
    }
}

#[test]
fn percent_display_has_one_decimal_digit_and_percent_sign() {
    for raw in 0..=10u8 {
        let text = VolumeSetting::from_raw(raw).percent_display();
        let chars: Vec<char> = text.chars().collect();
        let n = chars.len();
        assert!(n >= 4);
        assert_eq!(chars[n - 1], '%');
        assert_eq!(chars[n - 3], '.');
        assert!(chars[n - 2].is_ascii_digit());
        for c in &chars[..n - 3] {
            assert!(c.is_ascii_digit());
        }
    }
}

#[test]
fn percent_text_rounds_to_nearest_tenth() {
    assert_eq!(percent_string(1, 3), "33.3%");
    assert_eq!(percent_string(2, 3), "66.7%");
    assert_eq!(percent_string(1, 8), "12.5%");
    assert_eq!(percent_string(0, 7), "0.0%");
    assert_eq!(percent_string(7, 7), "100.0%");
}

#[test]
fn initial_global_level_is_half_range() {
    let settings = GameSettings::new();
    let global = settings.global_volume_level();
    assert_eq!(global.raw(), 5);
    assert_eq!(global.percent_display(), "50.0%");
}

#[test]
fn initial_relative_levels() {
    let settings = GameSettings::new();
    let soundtrack = settings.soundtrack_volume_level_relative();
    assert_eq!(soundtrack.raw(), 9);
    assert_eq!(soundtrack.percent_display(), "90.0%");
    // The same value through the constructor directly, with DIFF = 10.
    let direct = VolumeSetting::from_divisor_removed(10);
    assert_eq!(direct.raw(), 9);
    let sfx = settings.sfx_volume_level_relative();
    assert_eq!(sfx.raw(), 8);
    assert_eq!(sfx.percent_display(), "80.0%");
}

#[test]
fn up_intent_steps_global_level() {
    let mut settings = GameSettings::new();
    let outcome = handle_volume_action(&mut settings, up(VolumeSettingScope::Global));
    assert_eq!(settings.global_volume_level().raw(), 6);
    assert_eq!(outcome.display, "60.0%");
    assert!(outcome.update_global);
    // The relative levels are untouched.
    assert_eq!(settings.soundtrack_volume_level_relative().raw(), 9);
    assert_eq!(settings.sfx_volume_level_relative().raw(), 8);
}

#[test]
fn down_intent_saturates_at_minimum() {
    let mut settings = GameSettings::new();
    for _ in 0..5 {
        handle_volume_action(&mut settings, down(VolumeSettingScope::Global));
    }
    assert_eq!(settings.global_volume_level().raw(), 0);
    let before = settings.global_volume_level().percent_display();
    let outcome = handle_volume_action(&mut settings, down(VolumeSettingScope::Global));
    assert_eq!(settings.global_volume_level().raw(), 0);
    assert_eq!(outcome.display, before);
    assert_eq!(outcome.display, "0.0%");
}

#[test]
fn up_intent_saturates_at_maximum() {
    let mut settings = GameSettings::new();
    for _ in 0..5 {
        handle_volume_action(&mut settings, up(VolumeSettingScope::Global));
    }
    assert_eq!(settings.global_volume_level().raw(), 10);
    for _ in 0..4 {
        let outcome = handle_volume_action(&mut settings, up(VolumeSettingScope::Global));
        assert_eq!(settings.global_volume_level().raw(), 10);
        assert_eq!(outcome.display, "100.0%");
    }
}

#[test]
fn relative_scopes_do_not_touch_the_global_level() {
    let mut settings = GameSettings::new();
    let outcome = handle_volume_action(&mut settings, up(VolumeSettingScope::Soundtrack));
    assert!(!outcome.update_global);
    assert_eq!(outcome.display, "100.0%");
    assert_eq!(settings.soundtrack_volume_level_relative().raw(), 10);
    assert_eq!(settings.global_volume_level().raw(), 5);
    let outcome = handle_volume_action(&mut settings, down(VolumeSettingScope::Sfx));
    assert!(!outcome.update_global);
    assert_eq!(outcome.display, "70.0%");
    assert_eq!(settings.sfx_volume_level_relative().raw(), 7);
    assert_eq!(settings.global_volume_level().raw(), 5);
}

#[test]
fn scope_display_update_touches_only_the_matching_element() {
    let mut displays = vec![
        ScopeDisplay {
            scope: VolumeSettingScope::Global,
            text: String::from("50.0%"),
        },
        ScopeDisplay {
            scope: VolumeSettingScope::Soundtrack,
            text: String::from("90.0%"),
        },
        ScopeDisplay {
            scope: VolumeSettingScope::Sfx,
            text: String::from("80.0%"),
        },
    ];
    update_scope_display(
        &mut displays,
        VolumeSettingScope::Soundtrack,
        String::from("100.0%"),
    );
    assert_eq!(displays.len(), 3);
    assert_eq!(displays[0].text, "50.0%");
    assert_eq!(displays[1].text, "100.0%");
    assert_eq!(displays[2].text, "80.0%");
    assert!(matches!(displays[1].scope, VolumeSettingScope::Soundtrack));
}

#[test]
fn pipeline_steps_level_and_refreshes_display() {
    let mut settings = GameSettings::new();
    let mut displays = vec![
        ScopeDisplay {
            scope: VolumeSettingScope::Global,
            text: settings.global_volume_level().percent_display(),
        },
        ScopeDisplay {
            scope: VolumeSettingScope::Soundtrack,
            text: settings.soundtrack_volume_level_relative().percent_display(),
        },
        ScopeDisplay {
            scope: VolumeSettingScope::Sfx,
            text: settings.sfx_volume_level_relative().percent_display(),
        },
    ];
    let update_global = process_volume_action(&mut settings, &mut displays, up(VolumeSettingScope::Global));
    assert!(update_global);
    assert_eq!(settings.global_volume_level().raw(), 6);
    assert_eq!(displays[0].text, "60.0%");
    assert_eq!(displays[1].text, "90.0%");
    assert_eq!(displays[2].text, "80.0%");
    let update_global = process_volume_action(&mut settings, &mut displays, down(VolumeSettingScope::Sfx));
    assert!(!update_global);
    assert_eq!(settings.sfx_volume_level_relative().raw(), 7);
    assert_eq!(displays[0].text, "60.0%");
    assert_eq!(displays[2].text, "70.0%");
}

#[test]
fn from_max_builds_the_maximal_level() {
    let level = VolumeSetting::from_max();
    assert_eq!(level.raw(), 10);
    assert_eq!(level.percent_display(), "100.0%");
}
