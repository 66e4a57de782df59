//! Focus tracker: deduplicates native focus samples into `Window` events.
//!
//! The tracker keeps the last accepted `(application name, window title)`
//! pair. A new sample produces an event exactly when that pair changed;
//! an unchanged sample produces nothing. A missing sample (the backend
//! had no observation) neither resets the state nor emits an event — the
//! caller simply does not invoke the tracker for it.

use vstd::prelude::*;
use crate::event::{opt_str_view, BlockedApp, BlockedAppEvent, Platform, WindowEvent};

verus! {

/// The last accepted focus observation: application name and window
/// title.
pub struct WindowTitle {
    pub app_name: String,
    pub title: String,
}

impl WindowTitle {
    /// The initial state, before any sample was accepted. The empty pair
    /// means the first real sample always differs and is published.
    pub fn new() -> (r: Self)
        ensures
            r.app_name@ == Seq::<char>::empty(),
            r.title@ == Seq::<char>::empty(),
    {
        WindowTitle { app_name: String::new(), title: String::new() }
    }
}

/// One observation of the currently focused application and window, as
/// handed over by the native backend.
pub struct FocusSample {
    pub app_name: String,
    pub window_title: String,
    pub bundle_id: Option<String>,
    pub url: Option<String>,
}

/// Whether a sample differs from the stored state in application name or
/// window title — the condition under which a `Window` event is due.
pub open spec fn focus_changed(
    state_app: Seq<char>,
    state_title: Seq<char>,
    app: Seq<char>,
    title: Seq<char>,
) -> bool {
    state_app != app || state_title != title
}

/// Compares one sample against the stored state, updates the state to the
/// sample, and returns the `Window` event to publish — exactly when the
/// `(application name, window title)` pair changed.
pub fn process_focus_sample(state: &mut WindowTitle, sample: &FocusSample)
    -> (ev: Option<WindowEvent>)
    ensures
        final(state).app_name@ == sample.app_name@,
        final(state).title@ == sample.window_title@,
        ev is Some <==> focus_changed(
            old(state).app_name@,
            old(state).title@,
            sample.app_name@,
            sample.window_title@,
        ),
        ev matches Some(e) ==> {
            &&& e.app_name@ == sample.app_name@
            &&& e.window_title@ == sample.window_title@
            &&& opt_str_view(e.bundle_id) == opt_str_view(sample.bundle_id)
            &&& opt_str_view(e.url) == opt_str_view(sample.url)
            &&& e.platform == Platform::Mac
        },
{
    let changed = !(state.app_name == sample.app_name && state.title == sample.window_title);
    let ev = if changed {
        Some(WindowEvent {
            app_name: sample.app_name.clone(),
            window_title: sample.window_title.clone(),
            bundle_id: clone_opt_string(&sample.bundle_id),
            url: clone_opt_string(&sample.url),
            platform: Platform::Mac,
        })
    } else {
        None
    };
    state.app_name = sample.app_name.clone();
    state.title = sample.window_title.clone();
    ev
}

/// Runs one optional observation through the tracker. A missing sample —
/// the backend had nothing — is "no observation": the state is not reset
/// and no event is emitted.
pub fn observe_focus_sample(state: &mut WindowTitle, sample: &Option<FocusSample>)
    -> (ev: Option<WindowEvent>)
    ensures
        sample is None ==> *final(state) == *old(state) && ev is None,
        sample matches Some(s) ==> {
            &&& final(state).app_name@ == s.app_name@
            &&& final(state).title@ == s.window_title@
            &&& (ev is Some <==> focus_changed(
                old(state).app_name@,
                old(state).title@,
                s.app_name@,
                s.window_title@,
            ))
        },
        ev matches Some(e) ==> sample matches Some(s) && {
            &&& e.app_name@ == s.app_name@
            &&& e.window_title@ == s.window_title@
            &&& opt_str_view(e.bundle_id) == opt_str_view(s.bundle_id)
            &&& opt_str_view(e.url) == opt_str_view(s.url)
            &&& e.platform == Platform::Mac
        },
{
    match sample {
        Some(s) => process_focus_sample(state, s),
        None => None,
    }
}

/// A copy of an optional string with the same characters.
fn clone_opt_string(o: &Option<String>) -> (r: Option<String>)
    ensures
        opt_str_view(r) == opt_str_view(*o),
{
    match o {
        Some(s) => Some(s.clone()),
        None => None,
    }
}

/// The `(application name, window title)` pairs of the events the tracker
/// emits from a given state for a given sequence of sample pairs: one
/// entry per sample that differs from its immediately preceding accepted
/// sample.
pub open spec fn focus_events_of(
    st: (Seq<char>, Seq<char>),
    samples: Seq<(Seq<char>, Seq<char>)>,
) -> Seq<(Seq<char>, Seq<char>)>
    decreases samples.len(),
{
    if samples.len() == 0 {
        Seq::empty()
    } else {
        let first = samples[0];
        let emitted: Seq<(Seq<char>, Seq<char>)> = if focus_changed(st.0, st.1, first.0, first.1) {
            seq![first]
        } else {
            Seq::empty()
        };
        emitted + focus_events_of(first, samples.drop_first())
    }
}

/// The state left after the tracker has accepted a sequence of sample
/// pairs: the last sample, or the starting state when there was none.
pub open spec fn focus_state_after(
    st: (Seq<char>, Seq<char>),
    samples: Seq<(Seq<char>, Seq<char>)>,
) -> (Seq<char>, Seq<char>) {
    if samples.len() == 0 {
        st
    } else {
        samples.last()
    }
}

/// The view of a sample as its `(application name, window title)` pair.
pub open spec fn sample_pair(s: FocusSample) -> (Seq<char>, Seq<char>) {
    (s.app_name@, s.window_title@)
}

/// The pairs of a sequence of samples.
pub open spec fn sample_pairs(samples: Seq<FocusSample>) -> Seq<(Seq<char>, Seq<char>)> {
    samples.map_values(|s: FocusSample| sample_pair(s))
}

/// Runs the tracker over a whole batch of samples, returning the emitted
/// events: exactly one per sample whose `(application name, window
/// title)` pair differs from the immediately preceding accepted sample,
/// in sample order.
pub fn process_focus_samples(state: &mut WindowTitle, samples: &Vec<FocusSample>)
    -> (evs: Vec<WindowEvent>)
    ensures
        evs@.map_values(|e: WindowEvent| (e.app_name@, e.window_title@))
            == focus_events_of((old(state).app_name@, old(state).title@), sample_pairs(samples@)),
        (final(state).app_name@, final(state).title@)
            == focus_state_after((old(state).app_name@, old(state).title@), sample_pairs(samples@)),
{
    let ghost st0 = (state.app_name@, state.title@);
    let ghost ps = sample_pairs(samples@);
    let mut evs: Vec<WindowEvent> = Vec::new();
    let mut i: usize = 0;
    proof {
        assert(ps.skip(0) =~= ps);
        let m0 = evs@.map_values(|e: WindowEvent| (e.app_name@, e.window_title@));
        assert(m0 =~= Seq::<(Seq<char>, Seq<char>)>::empty());
        assert(m0 + focus_events_of(st0, ps) =~= focus_events_of(st0, ps));
    }
    while i < samples.len()
        invariant
            i <= samples@.len(),
            ps == sample_pairs(samples@),
            evs@.map_values(|e: WindowEvent| (e.app_name@, e.window_title@))
                + focus_events_of((state.app_name@, state.title@), ps.skip(i as int))
                == focus_events_of(st0, ps),
            focus_state_after((state.app_name@, state.title@), ps.skip(i as int))
                == focus_state_after(st0, ps),
        decreases samples@.len() - i,
    {
        let ghost pair = ps[i as int];
        let ghost st_pre = (state.app_name@, state.title@);
        let ghost rec = focus_events_of(pair, ps.skip(i + 1));
        let ghost prev_m = evs@.map_values(|e: WindowEvent| (e.app_name@, e.window_title@));
        proof {
            assert(ps.skip(i as int)[0] == ps[i as int]);
            assert(ps.skip(i as int).drop_first() =~= ps.skip(i + 1));
            if i + 1 < ps.len() {
                assert(ps.skip(i as int).last() == ps.last());
                assert(ps.skip(i + 1).last() == ps.last());
            } else {
                assert(ps.skip(i as int).last() == ps[i as int]);
            }
        }
        let ghost prev_evs = evs@;
        let ev = process_focus_sample(state, &samples[i]);
        proof {
            assert((state.app_name@, state.title@) == pair);
        }
        match ev {
            Some(e) => {
                evs.push(e);
                proof {
                    assert(evs@ == prev_evs.push(e));
                    assert(evs@.map_values(|e: WindowEvent| (e.app_name@, e.window_title@))
                        =~= prev_m.push(pair));
                    assert(focus_events_of(st_pre, ps.skip(i as int)) == seq![pair] + rec);
                    assert(prev_m.push(pair) + rec =~= prev_m + (seq![pair] + rec));
                }
            },
            None => {
                proof {
                    assert(st_pre == pair);
                    assert(focus_events_of(st_pre, ps.skip(i as int))
                        =~= Seq::<(Seq<char>, Seq<char>)>::empty() + rec);
                    assert(Seq::<(Seq<char>, Seq<char>)>::empty() + rec =~= rec);
                }
            },
        }
        i = i + 1;
    }
    proof {
        let m = evs@.map_values(|e: WindowEvent| (e.app_name@, e.window_title@));
        assert(ps.skip(samples@.len() as int) =~= Seq::<(Seq<char>, Seq<char>)>::empty());
        assert(m + Seq::<(Seq<char>, Seq<char>)>::empty() =~= m);
    }
    evs
}

/// Duplicate consecutive samples yield zero events: a run of samples all
/// equal to the stored state emits nothing and leaves the state there.
pub proof fn lemma_unchanged_samples_emit_nothing(
    st: (Seq<char>, Seq<char>),
    samples: Seq<(Seq<char>, Seq<char>)>,
)
    requires
        forall|i: int| 0 <= i < samples.len() ==> samples[i] == st,
    ensures
        focus_events_of(st, samples) == Seq::<(Seq<char>, Seq<char>)>::empty(),
        focus_state_after(st, samples) == st,
    decreases samples.len(),
{
    if samples.len() == 0 {
    } else {
        assert(samples[0] == st);
        assert(forall|i: int| 0 <= i < samples.drop_first().len()
            ==> samples.drop_first()[i] == samples[i + 1]);
        lemma_unchanged_samples_emit_nothing(st, samples.drop_first());
        assert(focus_events_of(st, samples) =~= Seq::<(Seq<char>, Seq<char>)>::empty());
        assert(samples.last() == st);
    }
}

/// What the tracker decides for the enforcement checks that accompany one
/// focus sample: whether to redirect a blocked navigation (and publish
/// the matching blocked-site event), and which application to close.
pub struct FocusEnforcement {
    /// Redirect the current navigation away from a blocked site.
    pub redirect_to_vibes: bool,
    /// The blocked-site event to publish alongside the redirect.
    pub blocked_event: Option<BlockedAppEvent>,
    /// The bundle identifier of a blocked application to close.
    pub close_app: Option<String>,
}

/// Decides the enforcement actions for one focus sample, given the
/// backend's verdicts on the sample's URL and bundle identifier. A
/// blocked URL is redirected and reported as a blocked site; a blocked
/// bundle identifier names the application to close. A sample without a
/// URL or bundle identifier triggers nothing for that half.
pub fn evaluate_focus_enforcement(sample: &FocusSample, url_blocked: bool, bundle_blocked: bool)
    -> (r: FocusEnforcement)
    ensures
        r.redirect_to_vibes <==> (sample.url is Some && url_blocked),
        r.blocked_event is Some <==> r.redirect_to_vibes,
        r.blocked_event matches Some(ev) ==> {
            &&& ev.blocked_apps@.len() == 1
            &&& ev.blocked_apps@[0].app_name@ == sample.app_name@
            &&& Some(ev.blocked_apps@[0].app_external_id@) == opt_str_view(sample.url)
            &&& ev.blocked_apps@[0].is_site
        },
        opt_str_view(r.close_app) == if bundle_blocked {
            opt_str_view(sample.bundle_id)
        } else {
            None::<Seq<char>>
        },
{
    let (redirect_to_vibes, blocked_event) = match &sample.url {
        Some(url_str) => {
            if url_blocked {
                let blocked_app = BlockedApp {
                    app_name: sample.app_name.clone(),
                    app_external_id: url_str.clone(),
                    is_site: true,
                };
                let mut blocked_apps: Vec<BlockedApp> = Vec::new();
                blocked_apps.push(blocked_app);
                (true, Some(BlockedAppEvent { blocked_apps }))
            } else {
                (false, None)
            }
        },
        None => (false, None),
    };
    let close_app = if bundle_blocked {
        clone_opt_string(&sample.bundle_id)
    } else {
        None
    };
    FocusEnforcement { redirect_to_vibes, blocked_event, close_app }
}

} // verus!
