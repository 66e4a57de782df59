//! Blocking policy engine: computes the effective block set handed to the
//! enforcement backend.
//!
//! In blocklist mode only the requested items are blocked. In allowlist
//! mode everything is blocked except the listed items, so the final set
//! also carries fixed exceptions: system identifiers that must stay
//! usable, and — only when a website target is present — the browser
//! binaries themselves, since blocking a site must not make the whole
//! browser unusable. The final set is deduplicated by identifier, keeping
//! the first occurrence.

use vstd::prelude::*;
use crate::blocking::BlockableItem;

verus! {

/// The mathematical view of one blockable item: its identifier and its
/// browser flag.
pub open spec fn item_view(it: BlockableItem) -> (Seq<char>, bool) {
    (it.app_external_id@, it.is_browser)
}

/// The view of a list of blockable items.
pub open spec fn items_view(items: Seq<BlockableItem>) -> Seq<(Seq<char>, bool)> {
    items.map_values(|it: BlockableItem| item_view(it))
}

/// Whether some item in the list is a website target.
pub open spec fn has_browser_target(items: Seq<(Seq<char>, bool)>) -> bool {
    exists|i: int| 0 <= i < items.len() && items[i].1
}

/// Whether some item in the list carries the given identifier.
pub open spec fn seq_has_id(items: Seq<(Seq<char>, bool)>, id: Seq<char>) -> bool {
    exists|i: int| 0 <= i < items.len() && items[i].0 == id
}

/// Identifiers that allowlist mode must never block: the system shell and
/// utilities, and the monitoring application itself.
pub open spec fn system_exception_views() -> Seq<(Seq<char>, bool)> {
    seq![
        ("com.apple.SystemFinder"@, false),
        ("com.spotify.client"@, false),
        ("com.apple.ActivityMonitor"@, false),
        ("com.apple.SystemPreferences"@, false),
        ("com.apple.finder"@, false),
        ("com.apple.Terminal"@, false),
        ("com.apple.Preview"@, false),
        ("com.apple.Music"@, false),
        ("com.nordvpn.macos"@, false),
        ("ebb.cool"@, true),
        ("com.ebb.app"@, true),
    ]
}

/// Browser binaries that allowlist mode must not block when a website
/// target is present: only navigations inside them are blocked.
pub open spec fn browser_exception_views() -> Seq<(Seq<char>, bool)> {
    seq![
        ("com.google.Chrome"@, false),
        ("com.google.Chrome.beta"@, false),
        ("com.google.Chrome.dev"@, false),
        ("com.google.Chrome.canary"@, false),
        ("com.apple.Safari"@, false),
        ("com.microsoft.Edge"@, false),
        ("com.brave.Browser"@, false),
        ("company.thebrowser.Browser"@, false),
    ]
}

/// The exception set for a mode: empty in blocklist mode; in allowlist
/// mode the system exceptions, preceded by the browser exceptions when a
/// website target is present.
pub open spec fn exception_views(has_website_url: bool, blocklist_mode: bool)
    -> Seq<(Seq<char>, bool)>
{
    if blocklist_mode {
        Seq::empty()
    } else if has_website_url {
        browser_exception_views() + system_exception_views()
    } else {
        system_exception_views()
    }
}

/// Deduplication by identifier, keeping the first occurrence of each
/// identifier in order.
pub open spec fn dedup_ids(s: Seq<(Seq<char>, bool)>) -> Seq<(Seq<char>, bool)>
    decreases s.len(),
{
    if s.len() == 0 {
        Seq::empty()
    } else {
        let d = dedup_ids(s.drop_last());
        if seq_has_id(d, s.last().0) {
            d
        } else {
            d.push(s.last())
        }
    }
}

/// The effective block set for a request: the requested items followed by
/// the mode's exceptions, deduplicated by identifier.
pub open spec fn effective_block_views(items: Seq<(Seq<char>, bool)>, blocklist_mode: bool)
    -> Seq<(Seq<char>, bool)>
{
    dedup_ids(items + exception_views(has_browser_target(items), blocklist_mode))
}

/// Deduplication keeps an identifier if and only if the input holds it.
pub proof fn lemma_dedup_ids_same_ids(s: Seq<(Seq<char>, bool)>, id: Seq<char>)
    ensures
        seq_has_id(dedup_ids(s), id) <==> seq_has_id(s, id),
    decreases s.len(),
{
    if s.len() == 0 {
        assert(!seq_has_id(s, id));
        assert(!seq_has_id(dedup_ids(s), id));
    } else {
        lemma_dedup_ids_same_ids(s.drop_last(), id);
        let d = dedup_ids(s.drop_last());
        assert(seq_has_id(s, id) <==> (seq_has_id(s.drop_last(), id) || s.last().0 == id)) by {
            if seq_has_id(s, id) {
                let i = choose|i: int| 0 <= i < s.len() && s[i].0 == id;
                if i < s.len() - 1 {
                    assert(s.drop_last()[i] == s[i]);
                }
            }
            if seq_has_id(s.drop_last(), id) {
                let i = choose|i: int| 0 <= i < s.drop_last().len() && s.drop_last()[i].0 == id;
                assert(s[i] == s.drop_last()[i]);
            }
            if s.last().0 == id {
                assert(s[s.len() - 1].0 == id);
            }
        }
        if seq_has_id(d, s.last().0) {
            assert(dedup_ids(s) == d);
        } else {
            let r = d.push(s.last());
            assert(dedup_ids(s) == r);
            if seq_has_id(d, id) {
                let i = choose|i: int| 0 <= i < d.len() && d[i].0 == id;
                assert(r[i] == d[i]);
                assert(seq_has_id(r, id));
            }
            if s.last().0 == id {
                assert(r[r.len() - 1] == s.last());
                assert(seq_has_id(r, id));
            }
            if seq_has_id(r, id) {
                let i = choose|i: int| 0 <= i < r.len() && r[i].0 == id;
                if i < d.len() {
                    assert(d[i] == r[i]);
                } else {
                    assert(r[i] == s.last());
                }
            }
        }
    }
}

/// Deduplication leaves no two entries with the same identifier.
pub proof fn lemma_dedup_ids_unique(s: Seq<(Seq<char>, bool)>)
    ensures
        forall|i: int, j: int|
            0 <= i < j < dedup_ids(s).len() ==> dedup_ids(s)[i].0 != dedup_ids(s)[j].0,
    decreases s.len(),
{
    if s.len() == 0 {
    } else {
        lemma_dedup_ids_unique(s.drop_last());
        let d = dedup_ids(s.drop_last());
        if seq_has_id(d, s.last().0) {
        } else {
            let r = d.push(s.last());
            assert forall|i: int, j: int| 0 <= i < j < r.len() implies r[i].0 != r[j].0 by {
                if j < d.len() {
                    assert(r[i] == d[i] && r[j] == d[j]);
                } else {
                    assert(r[j] == s.last());
                    assert(r[i] == d[i]);
                    assert(!seq_has_id(d, s.last().0));
                    assert(d[i].0 == s.last().0 ==> seq_has_id(d, s.last().0));
                }
            }
        }
    }
}

/// A list whose identifiers are pairwise distinct is unchanged by
/// deduplication.
pub proof fn lemma_dedup_ids_no_dups(s: Seq<(Seq<char>, bool)>)
    requires
        forall|i: int, j: int| 0 <= i < j < s.len() ==> s[i].0 != s[j].0,
    ensures
        dedup_ids(s) == s,
    decreases s.len(),
{
    if s.len() == 0 {
        assert(dedup_ids(s) =~= s);
    } else {
        let p = s.drop_last();
        assert(forall|i: int, j: int| 0 <= i < j < p.len() ==> p[i].0 != p[j].0) by {
            assert(forall|i: int| 0 <= i < p.len() ==> p[i] == s[i]);
        }
        lemma_dedup_ids_no_dups(p);
        assert(!seq_has_id(p, s.last().0)) by {
            if seq_has_id(p, s.last().0) {
                let i = choose|i: int| 0 <= i < p.len() && p[i].0 == s.last().0;
                assert(s[i].0 == s[s.len() - 1].0);
            }
        }
        assert(dedup_ids(s) =~= s);
    }
}

/// Membership in a concatenation is membership in either part.
pub proof fn lemma_seq_has_id_add(a: Seq<(Seq<char>, bool)>, b: Seq<(Seq<char>, bool)>, id: Seq<char>)
    ensures
        seq_has_id(a + b, id) <==> (seq_has_id(a, id) || seq_has_id(b, id)),
{
    if seq_has_id(a, id) {
        let i = choose|i: int| 0 <= i < a.len() && a[i].0 == id;
        assert((a + b)[i] == a[i]);
    }
    if seq_has_id(b, id) {
        let i = choose|i: int| 0 <= i < b.len() && b[i].0 == id;
        assert((a + b)[a.len() + i] == b[i]);
    }
    if seq_has_id(a + b, id) {
        let i = choose|i: int| 0 <= i < (a + b).len() && (a + b)[i].0 == id;
        if i < a.len() {
            assert(a[i] == (a + b)[i]);
        } else {
            assert(b[i - a.len()] == (a + b)[i]);
        }
    }
}

/// In blocklist mode the effective block set is exactly the requested
/// items, deduplicated by identifier; a request without repeated
/// identifiers passes through unchanged.
pub proof fn lemma_blocklist_effective_set(items: Seq<(Seq<char>, bool)>)
    ensures
        effective_block_views(items, true) == dedup_ids(items),
        (forall|i: int, j: int| 0 <= i < j < items.len() ==> items[i].0 != items[j].0)
            ==> effective_block_views(items, true) == items,
{
    assert(items + exception_views(has_browser_target(items), true) =~= items);
    if forall|i: int, j: int| 0 <= i < j < items.len() ==> items[i].0 != items[j].0 {
        lemma_dedup_ids_no_dups(items);
    }
}

/// In allowlist mode the effective block set holds an identifier exactly
/// when the request holds it, the system exceptions hold it, or — with a
/// website target present — the browser exceptions hold it; and it holds
/// no identifier twice. In blocklist mode it holds exactly the requested
/// identifiers, never twice.
pub proof fn lemma_effective_set_ids(items: Seq<(Seq<char>, bool)>, blocklist_mode: bool, id: Seq<char>)
    ensures
        seq_has_id(effective_block_views(items, blocklist_mode), id) <==> {
            ||| seq_has_id(items, id)
            ||| (!blocklist_mode && seq_has_id(system_exception_views(), id))
            ||| (!blocklist_mode && has_browser_target(items)
                    && seq_has_id(browser_exception_views(), id))
        },
        forall|i: int, j: int|
            0 <= i < j < effective_block_views(items, blocklist_mode).len()
                ==> effective_block_views(items, blocklist_mode)[i].0
                    != effective_block_views(items, blocklist_mode)[j].0,
{
    let hw = has_browser_target(items);
    let exc = exception_views(hw, blocklist_mode);
    lemma_dedup_ids_same_ids(items + exc, id);
    lemma_seq_has_id_add(items, exc, id);
    if !blocklist_mode && hw {
        lemma_seq_has_id_add(browser_exception_views(), system_exception_views(), id);
    }
    lemma_dedup_ids_unique(items + exc);
}

/// Whether any requested item is a website target reached through a
/// browser.
pub fn has_website_url(blocked_apps: &Vec<BlockableItem>) -> (r: bool)
    ensures
        r == has_browser_target(items_view(blocked_apps@)),
{
    let mut i: usize = 0;
    while i < blocked_apps.len()
        invariant
            i <= blocked_apps@.len(),
            forall|j: int| 0 <= j < i ==> !items_view(blocked_apps@)[j].1,
        decreases blocked_apps@.len() - i,
    {
        if blocked_apps[i].is_browser {
            assert(items_view(blocked_apps@)[i as int].1);
            return true;
        }
        i = i + 1;
    }
    false
}

/// The fixed system exception list for allowlist mode.
pub fn get_system_exceptions() -> (r: Vec<BlockableItem>)
    ensures
        items_view(r@) == system_exception_views(),
{
    let mut v: Vec<BlockableItem> = Vec::new();
    v.push(BlockableItem::new("com.apple.SystemFinder".to_string(), false));
    v.push(BlockableItem::new("com.spotify.client".to_string(), false));
    v.push(BlockableItem::new("com.apple.ActivityMonitor".to_string(), false));
    v.push(BlockableItem::new("com.apple.SystemPreferences".to_string(), false));
    v.push(BlockableItem::new("com.apple.finder".to_string(), false));
    v.push(BlockableItem::new("com.apple.Terminal".to_string(), false));
    v.push(BlockableItem::new("com.apple.Preview".to_string(), false));
    v.push(BlockableItem::new("com.apple.Music".to_string(), false));
    v.push(BlockableItem::new("com.nordvpn.macos".to_string(), false));
    v.push(BlockableItem::new("ebb.cool".to_string(), true));
    v.push(BlockableItem::new("com.ebb.app".to_string(), true));
    proof {
        assert(items_view(v@) =~= system_exception_views());
    }
    v
}

/// The fixed browser-binary exception list for allowlist mode with a
/// website target.
pub fn get_browser_exceptions() -> (r: Vec<BlockableItem>)
    ensures
        items_view(r@) == browser_exception_views(),
{
    let mut v: Vec<BlockableItem> = Vec::new();
    v.push(BlockableItem::new("com.google.Chrome".to_string(), false));
    v.push(BlockableItem::new("com.google.Chrome.beta".to_string(), false));
    v.push(BlockableItem::new("com.google.Chrome.dev".to_string(), false));
    v.push(BlockableItem::new("com.google.Chrome.canary".to_string(), false));
    v.push(BlockableItem::new("com.apple.Safari".to_string(), false));
    v.push(BlockableItem::new("com.microsoft.Edge".to_string(), false));
    v.push(BlockableItem::new("com.brave.Browser".to_string(), false));
    v.push(BlockableItem::new("company.thebrowser.Browser".to_string(), false));
    proof {
        assert(items_view(v@) =~= browser_exception_views());
    }
    v
}

/// The exceptions joined to a request before enforcement: none in
/// blocklist mode; otherwise the system exceptions, preceded by the
/// browser exceptions when a website target is present.
pub fn get_exceptions(has_website_url: bool, blocklist_mode: bool) -> (r: Vec<BlockableItem>)
    ensures
        items_view(r@) == exception_views(has_website_url, blocklist_mode),
{
    let mut exceptions: Vec<BlockableItem> = Vec::new();
    if blocklist_mode {
        proof {
            assert(items_view(exceptions@) =~= exception_views(has_website_url, blocklist_mode));
        }
        return exceptions;
    }
    if has_website_url {
        let mut browser = get_browser_exceptions();
        exceptions.append(&mut browser);
    }
    let mut system = get_system_exceptions();
    let ghost pre = exceptions@;
    exceptions.append(&mut system);
    proof {
        assert(items_view(exceptions@) =~= items_view(pre) + system_exception_views());
        if has_website_url {
            assert(items_view(pre) =~= browser_exception_views());
        } else {
            assert(items_view(pre) =~= Seq::empty());
            assert(items_view(exceptions@) =~= system_exception_views());
        }
    }
    exceptions
}

/// Whether the list already holds an item with this identifier.
fn vec_contains_id(v: &Vec<BlockableItem>, id: &String) -> (r: bool)
    ensures
        r == seq_has_id(items_view(v@), id@),
{
    let mut j: usize = 0;
    while j < v.len()
        invariant
            j <= v@.len(),
            forall|k: int| 0 <= k < j ==> items_view(v@)[k].0 != id@,
        decreases v@.len() - j,
    {
        if v[j].app_external_id == *id {
            assert(items_view(v@)[j as int].0 == id@);
            return true;
        }
        j = j + 1;
    }
    false
}

/// Removes every repetition of an identifier, keeping the first
/// occurrence of each in order.
pub fn dedup_by_external_id(items: &Vec<BlockableItem>) -> (r: Vec<BlockableItem>)
    ensures
        items_view(r@) == dedup_ids(items_view(items@)),
{
    let ghost s = items_view(items@);
    let mut r: Vec<BlockableItem> = Vec::new();
    let mut i: usize = 0;
    while i < items.len()
        invariant
            i <= items@.len(),
            s == items_view(items@),
            items_view(r@) == dedup_ids(s.take(i as int)),
        decreases items@.len() - i,
    {
        proof {
            assert(s.take(i + 1).drop_last() =~= s.take(i as int));
            assert(s.take(i + 1).last() == s[i as int]);
        }
        let keep = !vec_contains_id(&r, &items[i].app_external_id);
        if keep {
            let it = BlockableItem::new(items[i].app_external_id.clone(), items[i].is_browser);
            r.push(it);
            proof {
                assert(items_view(r@) =~= dedup_ids(s.take(i + 1)));
            }
        }
        i = i + 1;
    }
    proof {
        assert(s.take(items@.len() as int) =~= s);
    }
    r
}

/// Everything the enforcement backend needs for one blocking request: the
/// effective targets, the page blocked navigations are redirected to, and
/// the mode.
pub struct BlockingPlan {
    pub targets: Vec<BlockableItem>,
    pub redirect_url: String,
    pub blocklist_mode: bool,
}

/// Computes the enforcement plan for a blocking request: the requested
/// items followed by the mode's exceptions, deduplicated by identifier.
pub fn start_blocking(blocked_apps: &Vec<BlockableItem>, redirect_url: &str, blocklist_mode: bool)
    -> (plan: BlockingPlan)
    ensures
        items_view(plan.targets@) == effective_block_views(items_view(blocked_apps@), blocklist_mode),
        forall|i: int, j: int| 0 <= i < j < plan.targets@.len()
            ==> (#[trigger] plan.targets@[i]).app_external_id@
                != (#[trigger] plan.targets@[j]).app_external_id@,
        plan.redirect_url@ == redirect_url@,
        plan.blocklist_mode == blocklist_mode,
{
    let mut all_items: Vec<BlockableItem> = Vec::new();
    let mut i: usize = 0;
    while i < blocked_apps.len()
        invariant
            i <= blocked_apps@.len(),
            all_items@.len() == i,
            forall|j: int| 0 <= j < i ==> {
                &&& (#[trigger] all_items@[j]).app_external_id@ == blocked_apps@[j].app_external_id@
                &&& all_items@[j].is_browser == blocked_apps@[j].is_browser
            },
        decreases blocked_apps@.len() - i,
    {
        let it = BlockableItem::new(
            blocked_apps[i].app_external_id.clone(),
            blocked_apps[i].is_browser,
        );
        all_items.push(it);
        i = i + 1;
    }
    proof {
        assert(items_view(all_items@) =~= items_view(blocked_apps@));
    }
    let has_url = has_website_url(blocked_apps);
    let mut exceptions = get_exceptions(has_url, blocklist_mode);
    let ghost requested = items_view(all_items@);
    all_items.append(&mut exceptions);
    proof {
        assert(items_view(all_items@) =~= items_view(blocked_apps@)
            + exception_views(has_browser_target(items_view(blocked_apps@)), blocklist_mode));
    }
    let targets = dedup_by_external_id(&all_items);
    proof {
        lemma_dedup_ids_unique(items_view(all_items@));
        assert forall|i: int, j: int| 0 <= i < j < targets@.len()
            implies (#[trigger] targets@[i]).app_external_id@
                != (#[trigger] targets@[j]).app_external_id@ by {
            assert(items_view(targets@)[i].0 == targets@[i].app_external_id@);
            assert(items_view(targets@)[j].0 == targets@[j].app_external_id@);
        }
    }
    BlockingPlan {
        targets,
        redirect_url: redirect_url.to_string(),
        blocklist_mode,
    }
}

} // verus!
