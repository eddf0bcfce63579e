//! One step of the poller in each mode. The caller observes the files,
//! performs the writes that a step asks for and sleeps between steps; the
//! steps decide every transition.
use vstd::prelude::*;

use crate::common::{
    reconcile_candidate, same_except, scan_export, scan_pick, scan_time, sync_json_with_autosave,
    target_is, text_is, Candidate, JsonData, Target, LAST_CHARACTER_TYPE, LAST_MODIFIED_TIME,
};
use crate::mode::{
    fileio_mode, waiting_mode, watching_mode, FileIO, Mode, ModeSelector, Waiting, Watching,
};

verus! {

/// What a tracking step decided.
#[derive(Debug, Clone, Copy, PartialEq, Eq, Structural)]
pub enum TrackDecision {
    /// Leave for a new discovery scan.
    ToDiscovery,
    /// The tracked file is newer than the record: export it.
    ToExport,
    /// Keep tracking after the poll interval.
    Stay,
}

/// The decision of a tracking cycle that starts after `repeats` cycles,
/// with cap `max`, when the tracked file's time is `observed` (`None` where
/// it is gone) and the recorded time is `stored`.
pub open spec fn tracking_decision(repeats: u16, max: u16, observed: Option<u64>, stored: u64) -> TrackDecision {
    if repeats >= max {
        TrackDecision::ToDiscovery
    } else {
        match observed {
            None => TrackDecision::ToDiscovery,
            Some(t) => if t > stored {
                TrackDecision::ToExport
            } else {
                TrackDecision::Stay
            },
        }
    }
}

/// The artifacts that an export step asks the caller to write.
#[derive(Debug, Clone, Copy, PartialEq, Eq, Structural)]
pub enum ExportPlan {
    /// Decode the tracked file and write its basic-info and enemies reports.
    Reports,
    /// No target: write the placeholder reports.
    Placeholders,
}

/// Whenever the poller tracks a file, no export is pending.
pub open spec fn selector_inv(s: ModeSelector) -> bool {
    s.mode() == watching_mode() ==> !s.export_pending()
}

/// A discovery cycle: forgets the target, reconciles every observed
/// candidate, and moves to export exactly when an export is then pending.
pub fn discovery_step(
    mode_selector: &mut ModeSelector,
    target: &mut Target,
    json_data: &mut JsonData,
    candidates: &Vec<Candidate>,
)
    requires
        old(mode_selector).mode() == waiting_mode(),
        old(json_data).valid_record(),
    ensures
        final(json_data).valid_record(),
        final(json_data).stored_time() == scan_time(candidates@, old(json_data).stored_time()),
        same_except(*old(json_data), *final(json_data), LAST_MODIFIED_TIME@, LAST_CHARACTER_TYPE@),
        final(mode_selector).export_pending() == scan_export(
            candidates@,
            old(json_data).stored_time(),
            old(mode_selector).export_pending(),
        ),
        final(mode_selector).target_found() == scan_pick(
            candidates@,
            old(json_data).stored_time(),
        ) is Some,
        final(mode_selector).mode() == if final(mode_selector).export_pending() {
            fileio_mode()
        } else {
            waiting_mode()
        },
        final(mode_selector).repeats() == old(mode_selector).repeats(),
        final(target).dir() == old(target).dir(),
        final(target).out_dir() == old(target).out_dir(),
        match scan_pick(candidates@, old(json_data).stored_time()) {
            Some(i) => {
                &&& target_is(
                    *final(target),
                    candidates@[i].full_path@,
                    candidates@[i].character_type@,
                    candidates@[i].modified_time.unwrap(),
                )
                &&& text_is(
                    final(json_data).value_of(LAST_CHARACTER_TYPE@),
                    candidates@[i].character_type@,
                )
            },
            None => *final(target) == *old(target) && final(json_data).value_of(
                LAST_CHARACTER_TYPE@,
            ) == old(json_data).value_of(LAST_CHARACTER_TYPE@),
        },
{
    mode_selector.reset_target();
    sync_json_with_autosave(mode_selector, target, json_data, candidates);
    if mode_selector.do_writing() {
        mode_selector.switch_mode(&Mode::IsFileIO(FileIO::new()));
    }
}

/// A tracking cycle. At the cap it moves to discovery and changes nothing
/// else. When the tracked file is gone it discards the target and moves to
/// discovery. Otherwise it reconciles the tracked file: a newer one moves to
/// export; else the cycle is counted and tracking goes on.
pub fn tracking_step(
    mode_selector: &mut ModeSelector,
    target: &mut Target,
    json_data: &mut JsonData,
    max_tracking_iterations: u16,
    observed: Option<u64>,
) -> (r: TrackDecision)
    requires
        old(mode_selector).mode() == watching_mode(),
        selector_inv(*old(mode_selector)),
        old(json_data).valid_record(),
    ensures
        r == tracking_decision(
            old(mode_selector).repeats(),
            max_tracking_iterations,
            observed,
            old(json_data).stored_time(),
        ),
        final(json_data).valid_record(),
        selector_inv(*final(mode_selector)),
        same_except(*old(json_data), *final(json_data), LAST_MODIFIED_TIME@, LAST_CHARACTER_TYPE@),
        final(target).dir() == old(target).dir(),
        final(target).out_dir() == old(target).out_dir(),
        r == TrackDecision::ToDiscovery ==> {
            &&& final(mode_selector).mode() == waiting_mode()
            &&& final(mode_selector).repeats() == old(mode_selector).repeats()
            &&& final(mode_selector).export_pending() == old(mode_selector).export_pending()
            &&& forall|k: Seq<char>| final(json_data).value_of(k) == old(json_data).value_of(k)
        },
        old(mode_selector).repeats() >= max_tracking_iterations ==> {
            &&& *final(target) == *old(target)
            &&& final(mode_selector).target_found() == old(mode_selector).target_found()
        },
        old(mode_selector).repeats() < max_tracking_iterations && observed is None ==> {
            &&& target_is(*final(target), Seq::<char>::empty(), Seq::<char>::empty(), 0)
            &&& !final(mode_selector).target_found()
        },
        r != TrackDecision::ToDiscovery ==> {
            &&& final(target).path() == old(target).path()
            &&& final(target).character() == old(target).character()
            &&& final(mode_selector).target_found()
            &&& if observed.unwrap() >= old(json_data).stored_time() {
                &&& final(target).time() == observed.unwrap()
                &&& final(json_data).stored_time() == observed.unwrap()
                &&& text_is(
                    final(json_data).value_of(LAST_CHARACTER_TYPE@),
                    old(target).character(),
                )
            } else {
                &&& *final(target) == *old(target)
                &&& forall|k: Seq<char>|
                    final(json_data).value_of(k) == old(json_data).value_of(k)
            }
        },
        r == TrackDecision::ToExport ==> {
            &&& final(mode_selector).mode() == fileio_mode()
            &&& final(mode_selector).export_pending()
            &&& final(mode_selector).repeats() == old(mode_selector).repeats()
        },
        r == TrackDecision::Stay ==> {
            &&& final(mode_selector).mode() == watching_mode()
            &&& !final(mode_selector).export_pending()
            &&& final(mode_selector).repeats() == old(mode_selector).repeats() + 1
        },
{
    if mode_selector.times_repeated() >= max_tracking_iterations {
        mode_selector.switch_mode(&Mode::IsWaiting(Waiting::new()));
        return TrackDecision::ToDiscovery;
    }
    let t = match observed {
        None => {
            target.clear_params();
            mode_selector.reset_target();
            mode_selector.switch_mode(&Mode::IsWaiting(Waiting::new()));
            return TrackDecision::ToDiscovery;
        },
        Some(t) => t,
    };
    mode_selector.found_target();
    let path = target.full_path();
    let character = target.character_type();
    let _ = reconcile_candidate(
        mode_selector,
        target,
        json_data,
        path.as_str(),
        character.as_str(),
        t,
    );
    if mode_selector.do_writing() {
        mode_selector.switch_mode(&Mode::IsFileIO(FileIO::new()));
        TrackDecision::ToExport
    } else {
        mode_selector.increase_times_repeated();
        TrackDecision::Stay
    }
}

/// An export cycle. With a target it asks for the reports and moves to
/// tracking; without one it asks for the placeholders and moves to
/// discovery. Either way the export flag is cleared and the tracking
/// counter is reset.
pub fn export_step(mode_selector: &mut ModeSelector) -> (r: ExportPlan)
    requires
        old(mode_selector).mode() == fileio_mode(),
    ensures
        r == if old(mode_selector).target_found() {
            ExportPlan::Reports
        } else {
            ExportPlan::Placeholders
        },
        final(mode_selector).mode() == if old(mode_selector).target_found() {
            watching_mode()
        } else {
            waiting_mode()
        },
        !final(mode_selector).export_pending(),
        final(mode_selector).repeats() == 0,
        final(mode_selector).target_found() == old(mode_selector).target_found(),
        selector_inv(*final(mode_selector)),
{
    let plan = if mode_selector.has_target() {
        mode_selector.switch_mode(&Mode::IsWatching(Watching::new()));
        ExportPlan::Reports
    } else {
        mode_selector.switch_mode(&Mode::IsWaiting(Waiting::new()));
        ExportPlan::Placeholders
    };
    mode_selector.turn_off_do_writing();
    mode_selector.reset_times_repeated();
    plan
}

/// A tracking run whose file does not change (its time never exceeds the
/// record) leaves for discovery after exactly `max` counted cycles: every
/// cycle that starts with fewer than `max` counted stays in tracking, and the
/// cycle that starts with `max` counted leaves.
pub proof fn lemma_tracking_leaves_at_cap(max: u16, stored: u64, t: u64)
    requires
        t <= stored,
    ensures
        forall|k: u16| k < max ==> tracking_decision(k, max, Some(t), stored) == TrackDecision::Stay,
        tracking_decision(max, max, Some(t), stored) == TrackDecision::ToDiscovery,
{
}

} // verus!
