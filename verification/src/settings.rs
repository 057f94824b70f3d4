//! The settings aggregate — a global volume level and two levels displayed
//! relative to it — and the adjustment pipeline that consumes an adjustment
//! intent, mutates the targeted level, and reports the refreshed display
//! text together with whether the audio consumer must be fed anew.

use crate::level::{percent_of_level, LevelSetting, VolumeSetting};
use vstd::prelude::*;

verus! {

/// The direction of a single adjustment: one unit up or one unit down.
#[derive(Clone, Copy, PartialEq, Eq, Structural, Debug)]
pub enum BinaryAdjustment {
    Up,
    Down,
}

/// The named level an adjustment targets.
#[derive(Clone, Copy, PartialEq, Eq, Structural, Debug)]
pub enum VolumeSettingScope {
    Global,
    Soundtrack,
    Sfx,
}

/// An ephemeral adjustment intent: a direction paired with the scope it
/// targets. Produced once per user interaction and consumed within the same
/// update cycle.
#[derive(Clone, Copy, PartialEq, Eq, Structural, Debug)]
pub struct LevelSettingAction<S> {
    pub adjustment: BinaryAdjustment,
    pub scope: S,
}

/// The persisted configuration: three independent volume levels. The global
/// level feeds the audio consumer; the soundtrack and sound-effects levels
/// are displayed relative to it and do not feed the consumer themselves.
///
/// The fields are reachable only through read accessors and the adjustment
/// pipeline, which preserves the single-writer discipline.
#[derive(Clone, Copy, PartialEq, Eq)]
pub struct GameSettings {
    global_volume_level: VolumeSetting,
    soundtrack_volume_level_relative: VolumeSetting,
    sfx_volume_level_relative: VolumeSetting,
}

/// What the adjustment pipeline hands back for one intent: the refreshed
/// percentage text of the targeted level, and whether the global level
/// changed, in which case the audio consumer must be fed the new value.
pub struct VolumeActionOutcome {
    pub display: String,
    pub update_global: bool,
}

/// The raw byte a one-unit adjustment yields, saturating at the volume
/// bounds: repeated `Up` intents beyond the maximum and `Down` intents below
/// the minimum are no-ops.
pub open spec fn adjusted_raw(raw: u8, adjustment: BinaryAdjustment) -> int {
    match adjustment {
        BinaryAdjustment::Up => if raw + 1 <= VolumeSetting::max_spec() {
            raw + 1
        } else {
            VolumeSetting::max_spec() as int
        },
        BinaryAdjustment::Down => if raw - 1 >= VolumeSetting::min_spec() {
            raw - 1
        } else {
            VolumeSetting::min_spec() as int
        },
    }
}

impl GameSettings {
    /// The global volume level.
    pub closed spec fn global_spec(&self) -> VolumeSetting {
        self.global_volume_level
    }

    /// The soundtrack volume level, relative to the global level.
    pub closed spec fn soundtrack_spec(&self) -> VolumeSetting {
        self.soundtrack_volume_level_relative
    }

    /// The sound-effects volume level, relative to the global level.
    pub closed spec fn sfx_spec(&self) -> VolumeSetting {
        self.sfx_volume_level_relative
    }

    /// All three levels lie within their bounds.
    pub open spec fn wf(&self) -> bool {
        &&& crate::level::level_wf(&self.global_spec())
        &&& crate::level::level_wf(&self.soundtrack_spec())
        &&& crate::level::level_wf(&self.sfx_spec())
    }

    /// The one valid initial state: the global level at half the range
    /// (divisor-added construction with divisor 2), the soundtrack level one
    /// range-tenth below the maximum (divisor-removed with divisor `DIFF`),
    /// and the sound-effects level one range-fifth below the maximum
    /// (divisor-removed with divisor `DIFF / 2`).
    pub fn new() -> (r: Self)
        ensures
            r.wf(),
            r.global_spec().raw_spec() == 5,
            r.soundtrack_spec().raw_spec() == 9,
            r.sfx_spec().raw_spec() == 8,
    {
        let diff = VolumeSetting::max_value() - VolumeSetting::min_value();
        GameSettings {
            global_volume_level: VolumeSetting::from_divisor_added(2),
            soundtrack_volume_level_relative: VolumeSetting::from_divisor_removed(diff),
            sfx_volume_level_relative: VolumeSetting::from_divisor_removed(diff / 2),
        }
    }

    /// Read access to the global volume level.
    pub fn global_volume_level(&self) -> (r: VolumeSetting)
        ensures
            r == self.global_spec(),
    {
        self.global_volume_level
    }

    /// Read access to the soundtrack volume level.
    pub fn soundtrack_volume_level_relative(&self) -> (r: VolumeSetting)
        ensures
            r == self.soundtrack_spec(),
    {
        self.soundtrack_volume_level_relative
    }

    /// Read access to the sound-effects volume level.
    pub fn sfx_volume_level_relative(&self) -> (r: VolumeSetting)
        ensures
            r == self.sfx_spec(),
    {
        self.sfx_volume_level_relative
    }
}

/// Processes one adjustment intent: steps the targeted level one unit in the
/// intent's direction (saturating at the bounds), leaves the two other
/// levels untouched, and returns the targeted level's refreshed percentage
/// text together with whether the global level was the target — in which
/// case the caller must hand the new global level to the audio consumer.
pub fn handle_volume_action(
    settings: &mut GameSettings,
    action: LevelSettingAction<VolumeSettingScope>,
) -> (outcome: VolumeActionOutcome)
    requires
        old(settings).wf(),
    ensures
        final(settings).wf(),
        ({
            let target_old = match action.scope {
                VolumeSettingScope::Global => old(settings).global_spec(),
                VolumeSettingScope::Soundtrack => old(settings).soundtrack_spec(),
                VolumeSettingScope::Sfx => old(settings).sfx_spec(),
            };
            let target_new = match action.scope {
                VolumeSettingScope::Global => final(settings).global_spec(),
                VolumeSettingScope::Soundtrack => final(settings).soundtrack_spec(),
                VolumeSettingScope::Sfx => final(settings).sfx_spec(),
            };
            &&& target_new.raw_spec() == adjusted_raw(target_old.raw_spec(), action.adjustment)
            &&& outcome.display@ == percent_of_level(&target_new)
        }),
        action.scope != VolumeSettingScope::Global ==> final(settings).global_spec() == old(
            settings,
        ).global_spec(),
        action.scope != VolumeSettingScope::Soundtrack ==> final(settings).soundtrack_spec()
            == old(settings).soundtrack_spec(),
        action.scope != VolumeSettingScope::Sfx ==> final(settings).sfx_spec() == old(
            settings,
        ).sfx_spec(),
        outcome.update_global == (action.scope is Global),
{
    let (current, update_global) = match action.scope {
        VolumeSettingScope::Global => (settings.global_volume_level, true),
        VolumeSettingScope::Soundtrack => (settings.soundtrack_volume_level_relative, false),
        VolumeSettingScope::Sfx => (settings.sfx_volume_level_relative, false),
    };
    let next = match action.adjustment {
        BinaryAdjustment::Up => VolumeSetting(current.0.add(1)),
        BinaryAdjustment::Down => VolumeSetting(current.0.sub(1)),
    };
    match action.scope {
        VolumeSettingScope::Global => {
            settings.global_volume_level = next;
        },
        VolumeSettingScope::Soundtrack => {
            settings.soundtrack_volume_level_relative = next;
        },
        VolumeSettingScope::Sfx => {
            settings.sfx_volume_level_relative = next;
        },
    }
    let display = next.percent_display();
    VolumeActionOutcome { display, update_global }
}

/// One display element of the settings view: the text surface bound to a
/// scope.
pub struct ScopeDisplay {
    pub scope: VolumeSettingScope,
    pub text: String,
}

/// The element at position `i` of the display list is bound to `scope`.
pub open spec fn is_scope_at(ds: Seq<ScopeDisplay>, scope: VolumeSettingScope, i: int) -> bool {
    0 <= i < ds.len() && ds[i].scope == scope
}

/// Replaces the text of the single display element bound to `scope`, leaving
/// every other element untouched. Exactly one matching element must exist:
/// the UI registers one per scope before the settings view is shown, and a
/// missing or duplicated element is a contract violation, not a condition to
/// recover from, since skipping silently would mask an initialization-order
/// bug.
pub fn update_scope_display(
    displays: &mut Vec<ScopeDisplay>,
    scope: VolumeSettingScope,
    text: String,
)
    requires
        exists|i: int| is_scope_at(old(displays)@, scope, i),
        forall|i: int, j: int|
            is_scope_at(old(displays)@, scope, i) && is_scope_at(old(displays)@, scope, j) ==> i
                == j,
    ensures
        ({
            let ds = old(displays)@;
            let i = choose|i: int| is_scope_at(ds, scope, i);
            final(displays)@ == ds.update(i, (ScopeDisplay { scope, text }))
        }),
{
    let ghost ds = old(displays)@;
    let ghost target = choose|i: int| is_scope_at(ds, scope, i);
    let mut n: usize = 0;
    while n < displays.len() && displays[n].scope != scope
        invariant
            displays@ == ds,
            0 <= n <= ds.len(),
            forall|k: int| 0 <= k < n ==> ds[k].scope != scope,
        decreases ds.len() - n,
    {
        n = n + 1;
    }
    if n < displays.len() {
        proof {
            assert(is_scope_at(ds, scope, n as int));
            assert(n as int == target);
        }
        displays[n] = ScopeDisplay { scope, text };
    } else {
        proof {
            assert(is_scope_at(ds, scope, target));
            assert(ds[target].scope != scope);
        }
    }
}

/// The per-frame adjustment pipeline for one intent: resolves the intent's
/// scope, steps that level one unit in the intent's direction (saturating at
/// the bounds), refreshes the single display element bound to the scope with
/// the level's new percentage text, and says whether the global level
/// changed — in which case the caller must recompute the value handed to the
/// audio consumer. The two other levels and every other display element stay
/// untouched.
pub fn process_volume_action(
    settings: &mut GameSettings,
    displays: &mut Vec<ScopeDisplay>,
    action: LevelSettingAction<VolumeSettingScope>,
) -> (update_global: bool)
    requires
        old(settings).wf(),
        exists|i: int| is_scope_at(old(displays)@, action.scope, i),
        forall|i: int, j: int|
            is_scope_at(old(displays)@, action.scope, i) && is_scope_at(
                old(displays)@,
                action.scope,
                j,
            ) ==> i == j,
    ensures
        final(settings).wf(),
        ({
            let target_old = match action.scope {
                VolumeSettingScope::Global => old(settings).global_spec(),
                VolumeSettingScope::Soundtrack => old(settings).soundtrack_spec(),
                VolumeSettingScope::Sfx => old(settings).sfx_spec(),
            };
            let target_new = match action.scope {
                VolumeSettingScope::Global => final(settings).global_spec(),
                VolumeSettingScope::Soundtrack => final(settings).soundtrack_spec(),
                VolumeSettingScope::Sfx => final(settings).sfx_spec(),
            };
            let ds = old(displays)@;
            let i = choose|i: int| is_scope_at(ds, action.scope, i);
            &&& target_new.raw_spec() == adjusted_raw(target_old.raw_spec(), action.adjustment)
            &&& final(displays)@.len() == ds.len()
            &&& final(displays)@[i].scope == action.scope
            &&& final(displays)@[i].text@ == percent_of_level(&target_new)
            &&& forall|j: int| 0 <= j < ds.len() && j != i ==> final(displays)@[j] == ds[j]
        }),
        action.scope != VolumeSettingScope::Global ==> final(settings).global_spec() == old(
            settings,
        ).global_spec(),
        action.scope != VolumeSettingScope::Soundtrack ==> final(settings).soundtrack_spec()
            == old(settings).soundtrack_spec(),
        action.scope != VolumeSettingScope::Sfx ==> final(settings).sfx_spec() == old(
            settings,
        ).sfx_spec(),
        update_global == (action.scope is Global),
{
    let outcome = handle_volume_action(settings, action);
    update_scope_display(displays, action.scope, outcome.display);
    outcome.update_global
}

} // verus!
