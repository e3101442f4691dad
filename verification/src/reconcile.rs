//! The reconciler: from the manifest that was applied last and the one just
//! fetched, the packages to remove and the packages to fetch.

use vstd::prelude::*;
use crate::modinfo::{Mod, ModView, ModpackConfig, mod_views, names_unique};
use crate::text::{opt_text_eq, texts};

verus! {

/// What one sync pass has to do, each list in manifest order.
#[derive(Clone, Debug, PartialEq, Eq)]
pub struct SyncPlan {
    /// Names of installed packages that the new manifest drops or changes.
    pub to_remove: Vec<String>,
    /// Names of packages of the new manifest that are new or changed.
    pub to_fetch: Vec<String>,
}

/// A `SyncPlan` with its names as sequences of characters.
pub struct SyncPlanView {
    pub to_remove: Seq<Seq<char>>,
    pub to_fetch: Seq<Seq<char>>,
}

impl View for SyncPlan {
    type V = SyncPlanView;

    open spec fn view(&self) -> SyncPlanView {
        SyncPlanView { to_remove: texts(self.to_remove@), to_fetch: texts(self.to_fetch@) }
    }
}

/// One download that a plan asks for.
#[derive(Clone, Debug, PartialEq, Eq)]
pub struct FetchOrder {
    /// The package to fetch.
    pub name: String,
    /// Where its archive is, relative to the base address.
    pub url: String,
    /// The installed file to write.
    pub filename: String,
}

/// A `FetchOrder` with its texts as sequences of characters.
pub struct FetchOrderView {
    pub name: Seq<char>,
    pub url: Seq<char>,
    pub filename: Seq<char>,
}

impl View for FetchOrder {
    type V = FetchOrderView;

    open spec fn view(&self) -> FetchOrderView {
        FetchOrderView { name: self.name@, url: self.url@, filename: self.filename@ }
    }
}

/// The views of a list of downloads, in order.
pub open spec fn order_views(orders: Seq<FetchOrder>) -> Seq<FetchOrderView> {
    orders.map_values(|o: FetchOrder| o@)
}

/// The download of a package.
pub open spec fn order_of(package: ModView) -> FetchOrderView {
    FetchOrderView {
        name: package.name,
        url: package.archive_url(),
        filename: package.archive_name(),
    }
}

/// Whether two descriptors of one package differ in content. Where both
/// carry a checksum the checksums decide; otherwise the change markers do,
/// and two descriptors without either signal count as the same.
pub open spec fn changed(a: ModView, b: ModView) -> bool {
    if a.checksum is Some && b.checksum is Some {
        a.checksum != b.checksum
    } else {
        a.last_change != b.last_change
    }
}

/// Whether `q` describes the package of `p`, unchanged.
pub open spec fn keeps(q: ModView, p: ModView) -> bool {
    q.name == p.name && !changed(q, p)
}

/// Whether `others` holds the package of `p`, unchanged.
pub open spec fn carried_over(p: ModView, others: Seq<ModView>) -> bool {
    exists|j: int| 0 <= j < others.len() && #[trigger] keeps(others[j], p)
}

/// The packages of `from` that `against` does not carry over, in the order
/// of `from`.
pub open spec fn stale_packages(from: Seq<ModView>, against: Seq<ModView>) -> Seq<ModView> {
    from.filter(|p: ModView| !carried_over(p, against))
}

/// The names of the packages of `from` that `against` does not carry over,
/// in the order of `from`.
pub open spec fn stale(from: Seq<ModView>, against: Seq<ModView>) -> Seq<Seq<char>> {
    stale_packages(from, against).map_values(|p: ModView| p.name)
}

/// The names of all packages, in order.
pub open spec fn names(mods: Seq<ModView>) -> Seq<Seq<char>> {
    mods.map_values(|p: ModView| p.name)
}

/// The plan that leads from `active`, if there is one, to `candidate`.
pub open spec fn plan_of(active: Option<Seq<ModView>>, candidate: Seq<ModView>) -> SyncPlanView {
    match active {
        None => SyncPlanView { to_remove: Seq::empty(), to_fetch: names(candidate) },
        Some(installed) => SyncPlanView {
            to_remove: stale(installed, candidate),
            to_fetch: stale(candidate, installed),
        },
    }
}

/// The downloads of the plan that leads from `active`, if there is one, to
/// `candidate`: one for each name of its `to_fetch`, in that order.
pub open spec fn orders_of(active: Option<Seq<ModView>>, candidate: Seq<ModView>) -> Seq<
    FetchOrderView,
> {
    match active {
        None => candidate.map_values(|p: ModView| order_of(p)),
        Some(installed) => stale_packages(candidate, installed).map_values(
            |p: ModView| order_of(p),
        ),
    }
}

/// Whether some package of `mods` is called `name`.
pub open spec fn has_name(mods: Seq<ModView>, name: Seq<char>) -> bool {
    exists|i: int| 0 <= i < mods.len() && (#[trigger] mods[i]).name == name
}

fn is_changed(a: &Mod, b: &Mod) -> (differs: bool)
    ensures
        differs == changed(a@, b@),
{
    match (&a.checksum, &b.checksum) {
        (Some(x), Some(y)) => !(*x == *y),
        _ => !opt_text_eq(&a.last_change, &b.last_change),
    }
}

fn is_carried_over(p: &Mod, others: &Vec<Mod>) -> (found: bool)
    ensures
        found == carried_over(p@, mod_views(others@)),
{
    let mut j: usize = 0;
    while j < others.len()
        invariant
            j <= others.len(),
            forall|k: int| 0 <= k < j ==> !keeps(#[trigger] mod_views(others@)[k], p@),
        decreases others.len() - j,
    {
        if others[j].name == p.name && !is_changed(&others[j], p) {
            assert(keeps(mod_views(others@)[j as int], p@));
            return true;
        }
        j += 1;
    }
    false
}

fn stale_names(from: &Vec<Mod>, against: &Vec<Mod>) -> (out: Vec<String>)
    ensures
        texts(out@) == stale(mod_views(from@), mod_views(against@)),
{
    let ghost views = mod_views(from@);
    let ghost others = mod_views(against@);
    let ghost gone = |p: ModView| !carried_over(p, others);
    let mut out: Vec<String> = Vec::new();
    let mut i: usize = 0;
    assert(views.take(0).filter(gone) =~= Seq::<ModView>::empty()) by {
        reveal(Seq::filter);
    }
    while i < from.len()
        invariant
            i <= from.len(),
            views == mod_views(from@),
            others == mod_views(against@),
            gone == |p: ModView| !carried_over(p, others),
            texts(out@) == views.take(i as int).filter(gone).map_values(|p: ModView| p.name),
        decreases from.len() - i,
    {
        let ghost before = views.take(i as int);
        proof {
            views.lemma_take_succ_push(i as int);
            before.lemma_filter_push(views[i as int], gone);
        }
        if !is_carried_over(&from[i], against) {
            let ghost old_out = out@;
            out.push(from[i].name.clone());
            assert(texts(out@) =~= texts(old_out).push(views[i as int].name));
            assert(before.filter(gone).push(views[i as int]).map_values(|p: ModView| p.name)
                =~= before.filter(gone).map_values(|p: ModView| p.name).push(
                views[i as int].name,
            ));
        }
        i += 1;
    }
    assert(views.take(from.len() as int) =~= views);
    out
}

/// The plan that leads from the manifest applied last, if there is one, to
/// the manifest just fetched.
pub fn plan(active: Option<&ModpackConfig>, candidate: &ModpackConfig) -> (plan: SyncPlan)
    ensures
        plan@ == plan_of(
            match active {
                Some(installed) => Some(installed@.mods),
                None => None,
            },
            candidate@.mods,
        ),
{
    match active {
        None => {
            let mut to_fetch: Vec<String> = Vec::new();
            let mut i: usize = 0;
            while i < candidate.mods.len()
                invariant
                    i <= candidate.mods.len(),
                    texts(to_fetch@) == names(mod_views(candidate.mods@)).take(i as int),
                decreases candidate.mods.len() - i,
            {
                let ghost fetched = to_fetch@;
                to_fetch.push(candidate.mods[i].name.clone());
                assert(texts(to_fetch@) =~= texts(fetched).push(candidate.mods@[i as int].name@));
                assert(texts(to_fetch@) =~= names(mod_views(candidate.mods@)).take(i + 1));
                i += 1;
            }
            assert(names(mod_views(candidate.mods@)).take(i as int) =~= names(
                mod_views(candidate.mods@),
            ));
            let to_remove: Vec<String> = Vec::new();
            assert(texts(to_remove@) =~= Seq::<Seq<char>>::empty());
            SyncPlan { to_remove, to_fetch }
        },
        Some(installed) => {
            let to_remove = stale_names(&installed.mods, &candidate.mods);
            let to_fetch = stale_names(&candidate.mods, &installed.mods);
            SyncPlan { to_remove, to_fetch }
        },
    }
}

fn order_for(package: &Mod) -> (order: FetchOrder)
    ensures
        order@ == order_of(package@),
{
    FetchOrder {
        name: package.name.clone(),
        url: package.archive_url(),
        filename: package.archive_name(),
    }
}

/// The downloads of the plan that leads from the manifest applied last, if
/// there is one, to the manifest just fetched, in the order of the plan.
pub fn fetch_orders(active: Option<&ModpackConfig>, candidate: &ModpackConfig) -> (orders: Vec<
    FetchOrder,
>)
    ensures
        order_views(orders@) == orders_of(
            match active {
                Some(installed) => Some(installed@.mods),
                None => None,
            },
            candidate@.mods,
        ),
{
    let ghost views = mod_views(candidate.mods@);
    let mut orders: Vec<FetchOrder> = Vec::new();
    let mut i: usize = 0;
    match active {
        None => {
            while i < candidate.mods.len()
                invariant
                    i <= candidate.mods.len(),
                    views == mod_views(candidate.mods@),
                    order_views(orders@) == views.map_values(|p: ModView| order_of(p)).take(
                        i as int,
                    ),
                decreases candidate.mods.len() - i,
            {
                let ghost ordered = orders@;
                orders.push(order_for(&candidate.mods[i]));
                assert(order_views(orders@) =~= order_views(ordered).push(
                    order_of(views[i as int]),
                ));
                assert(order_views(orders@) =~= views.map_values(|p: ModView| order_of(p)).take(
                    i + 1,
                ));
                i += 1;
            }
            assert(views.map_values(|p: ModView| order_of(p)).take(i as int)
                =~= views.map_values(|p: ModView| order_of(p)));
        },
        Some(installed) => {
            let ghost others = mod_views(installed.mods@);
            let ghost gone = |p: ModView| !carried_over(p, others);
            assert(views.take(0).filter(gone) =~= Seq::<ModView>::empty()) by {
                reveal(Seq::filter);
            }
            while i < candidate.mods.len()
                invariant
                    i <= candidate.mods.len(),
                    views == mod_views(candidate.mods@),
                    others == mod_views(installed.mods@),
                    gone == |p: ModView| !carried_over(p, others),
                    order_views(orders@) == views.take(i as int).filter(gone).map_values(
                        |p: ModView| order_of(p),
                    ),
                decreases candidate.mods.len() - i,
            {
                let ghost before = views.take(i as int);
                proof {
                    views.lemma_take_succ_push(i as int);
                    before.lemma_filter_push(views[i as int], gone);
                }
                if !is_carried_over(&candidate.mods[i], &installed.mods) {
                    let ghost ordered = orders@;
                    orders.push(order_for(&candidate.mods[i]));
                    assert(order_views(orders@) =~= order_views(ordered).push(
                        order_of(views[i as int]),
                    ));
                    assert(before.filter(gone).push(views[i as int]).map_values(
                        |p: ModView| order_of(p),
                    ) =~= before.filter(gone).map_values(|p: ModView| order_of(p)).push(
                        order_of(views[i as int]),
                    ));
                }
                i += 1;
            }
            assert(views.take(candidate.mods.len() as int) =~= views);
        },
    }
    orders
}

/// The downloads of a plan are those of its `to_fetch`: as many, in the
/// same order, each under the name that the plan lists.
pub proof fn lemma_orders_follow_plan(active: Option<Seq<ModView>>, candidate: Seq<ModView>)
    ensures
        orders_of(active, candidate).len() == plan_of(active, candidate).to_fetch.len(),
        forall|k: int|
            0 <= k < orders_of(active, candidate).len() ==> (#[trigger] orders_of(
                active,
                candidate,
            )[k]).name == plan_of(active, candidate).to_fetch[k],
{
}

/// A name is in `stale(from, against)` exactly if `from` holds a package of
/// that name which `against` does not carry over.
pub proof fn lemma_stale_contains(from: Seq<ModView>, against: Seq<ModView>, name: Seq<char>)
    ensures
        stale(from, against).contains(name) <==> exists|i: int|
            0 <= i < from.len() && (#[trigger] from[i]).name == name && !carried_over(
                from[i],
                against,
            ),
{
    let gone = |p: ModView| !carried_over(p, against);
    let kept = from.filter(gone);
    if stale(from, against).contains(name) {
        let k = choose|k: int| 0 <= k < stale(from, against).len() && stale(from, against)[k] == name;
        from.lemma_filter_pred(gone, k);
        assert(kept.contains(kept[k]));
        from.lemma_filter_contains_rev(gone, kept[k]);
        let i = choose|i: int| 0 <= i < from.len() && from[i] == kept[k];
        assert(from[i].name == name && !carried_over(from[i], against));
    }
    if exists|i: int|
        0 <= i < from.len() && (#[trigger] from[i]).name == name && !carried_over(from[i], against) {
        let i = choose|i: int|
            0 <= i < from.len() && (#[trigger] from[i]).name == name && !carried_over(
                from[i],
                against,
            );
        from.lemma_filter_contains(gone, i);
        let k = choose|k: int| 0 <= k < kept.len() && kept[k] == from[i];
        assert(stale(from, against)[k] == name);
    }
}

/// Every name that a plan removes is a name of the installed manifest, and
/// every name that it fetches is a name of the new one.
pub proof fn lemma_plan_names_come_from_manifests(
    active: Seq<ModView>,
    candidate: Seq<ModView>,
    name: Seq<char>,
)
    ensures
        plan_of(Some(active), candidate).to_remove.contains(name) ==> has_name(active, name),
        plan_of(Some(active), candidate).to_fetch.contains(name) ==> has_name(candidate, name),
{
    lemma_stale_contains(active, candidate, name);
    lemma_stale_contains(candidate, active, name);
}

/// Reconciling a manifest with itself plans nothing: no removal, no fetch.
pub proof fn lemma_same_manifest_plans_nothing(manifest: Seq<ModView>)
    ensures
        plan_of(Some(manifest), manifest).to_remove.len() == 0,
        plan_of(Some(manifest), manifest).to_fetch.len() == 0,
{
    let names = stale(manifest, manifest);
    if names.len() > 0 {
        assert(names.contains(names[0]));
        lemma_stale_contains(manifest, manifest, names[0]);
        let i = choose|i: int|
            0 <= i < manifest.len() && (#[trigger] manifest[i]).name == names[0] && !carried_over(
                manifest[i],
                manifest,
            );
        assert(keeps(manifest[i], manifest[i]));
    }
}

/// A package that both manifests hold, with two different checksums, is
/// removed and fetched again.
pub proof fn lemma_changed_checksum_is_replaced(
    active: Seq<ModView>,
    candidate: Seq<ModView>,
    old_one: ModView,
    new_one: ModView,
)
    requires
        names_unique(active),
        names_unique(candidate),
        active.contains(old_one),
        candidate.contains(new_one),
        old_one.name == new_one.name,
        old_one.checksum is Some,
        new_one.checksum is Some,
        old_one.checksum != new_one.checksum,
    ensures
        plan_of(Some(active), candidate).to_remove.contains(old_one.name),
        plan_of(Some(active), candidate).to_fetch.contains(old_one.name),
{
    let i = choose|i: int| 0 <= i < active.len() && active[i] == old_one;
    let j = choose|j: int| 0 <= j < candidate.len() && candidate[j] == new_one;
    assert(!carried_over(old_one, candidate)) by {
        assert forall|k: int| 0 <= k < candidate.len() implies !keeps(
            #[trigger] candidate[k],
            old_one,
        ) by {
            if candidate[k].name == old_one.name {
                assert(k == j);
            }
        }
    }
    assert(!carried_over(new_one, active)) by {
        assert forall|k: int| 0 <= k < active.len() implies !keeps(
            #[trigger] active[k],
            new_one,
        ) by {
            if active[k].name == new_one.name {
                assert(k == i);
            }
        }
    }
    assert(active[i].name == old_one.name);
    assert(candidate[j].name == old_one.name);
    lemma_stale_contains(active, candidate, old_one.name);
    lemma_stale_contains(candidate, active, old_one.name);
}

/// A package that only the installed manifest holds is removed and not
/// fetched.
pub proof fn lemma_dropped_package_is_removed(
    active: Seq<ModView>,
    candidate: Seq<ModView>,
    package: ModView,
)
    requires
        active.contains(package),
        !has_name(candidate, package.name),
    ensures
        plan_of(Some(active), candidate).to_remove.contains(package.name),
        !plan_of(Some(active), candidate).to_fetch.contains(package.name),
{
    let i = choose|i: int| 0 <= i < active.len() && active[i] == package;
    assert(!carried_over(package, candidate)) by {
        assert forall|k: int| 0 <= k < candidate.len() implies !keeps(
            #[trigger] candidate[k],
            package,
        ) by {}
    }
    assert(active[i].name == package.name);
    lemma_stale_contains(active, candidate, package.name);
    lemma_stale_contains(candidate, active, package.name);
}

/// A package that only the new manifest holds is fetched and not removed,
/// whether or not a manifest was applied before.
pub proof fn lemma_added_package_is_fetched(
    active: Option<Seq<ModView>>,
    candidate: Seq<ModView>,
    package: ModView,
)
    requires
        candidate.contains(package),
        active is Some ==> !has_name(active->0, package.name),
    ensures
        plan_of(active, candidate).to_fetch.contains(package.name),
        !plan_of(active, candidate).to_remove.contains(package.name),
{
    let j = choose|j: int| 0 <= j < candidate.len() && candidate[j] == package;
    match active {
        None => {
            assert(names(candidate)[j] == package.name);
        },
        Some(installed) => {
            assert(!carried_over(package, installed)) by {
                assert forall|k: int| 0 <= k < installed.len() implies !keeps(
                    #[trigger] installed[k],
                    package,
                ) by {}
            }
            assert(candidate[j].name == package.name);
            lemma_stale_contains(installed, candidate, package.name);
            lemma_stale_contains(candidate, installed, package.name);
        },
    }
}

/// The first sync, with no manifest applied before, removes nothing and
/// fetches every package of the new manifest, in its order.
pub proof fn lemma_first_sync_fetches_all(candidate: Seq<ModView>)
    ensures
        plan_of(None, candidate).to_remove == Seq::<Seq<char>>::empty(),
        plan_of(None, candidate).to_fetch == names(candidate),
        plan_of(None, candidate).to_fetch.len() == candidate.len(),
        forall|i: int|
            0 <= i < candidate.len() ==> #[trigger] plan_of(None, candidate).to_fetch[i]
                == candidate[i].name,
{
}

/// A plan does not depend on the order in which the manifests list their
/// packages: two pairs of manifests that hold the same packages plan the
/// same names to remove and the same names to fetch.
pub proof fn lemma_plan_ignores_order(
    active: Seq<ModView>,
    candidate: Seq<ModView>,
    active_reordered: Seq<ModView>,
    candidate_reordered: Seq<ModView>,
    name: Seq<char>,
)
    requires
        forall|p: ModView| active.contains(p) <==> active_reordered.contains(p),
        forall|p: ModView| candidate.contains(p) <==> candidate_reordered.contains(p),
    ensures
        plan_of(Some(active), candidate).to_remove.contains(name) <==> plan_of(
            Some(active_reordered),
            candidate_reordered,
        ).to_remove.contains(name),
        plan_of(Some(active), candidate).to_fetch.contains(name) <==> plan_of(
            Some(active_reordered),
            candidate_reordered,
        ).to_fetch.contains(name),
        plan_of(None, candidate).to_fetch.contains(name) <==> plan_of(
            None,
            candidate_reordered,
        ).to_fetch.contains(name),
{
    lemma_stale_follows_contents(active, candidate, active_reordered, candidate_reordered, name);
    lemma_stale_follows_contents(candidate, active, candidate_reordered, active_reordered, name);
    if names(candidate).contains(name) {
        let i = choose|i: int| 0 <= i < names(candidate).len() && names(candidate)[i] == name;
        assert(candidate.contains(candidate[i]));
        let j = choose|j: int|
            0 <= j < candidate_reordered.len() && candidate_reordered[j] == candidate[i];
        assert(names(candidate_reordered)[j] == name);
    }
    if names(candidate_reordered).contains(name) {
        let i = choose|i: int|
            0 <= i < names(candidate_reordered).len() && names(candidate_reordered)[i] == name;
        assert(candidate_reordered.contains(candidate_reordered[i]));
        let j = choose|j: int| 0 <= j < candidate.len() && candidate[j] == candidate_reordered[i];
        assert(names(candidate)[j] == name);
    }
}

proof fn lemma_carried_over_follows_contents(p: ModView, others: Seq<ModView>, same: Seq<ModView>)
    requires
        forall|q: ModView| others.contains(q) ==> same.contains(q),
        carried_over(p, others),
    ensures
        carried_over(p, same),
{
    let j = choose|j: int| 0 <= j < others.len() && #[trigger] keeps(others[j], p);
    assert(others.contains(others[j]));
    let k = choose|k: int| 0 <= k < same.len() && same[k] == others[j];
    assert(keeps(same[k], p));
}

proof fn lemma_stale_follows_contents(
    from: Seq<ModView>,
    against: Seq<ModView>,
    from_reordered: Seq<ModView>,
    against_reordered: Seq<ModView>,
    name: Seq<char>,
)
    requires
        forall|p: ModView| from.contains(p) <==> from_reordered.contains(p),
        forall|p: ModView| against.contains(p) <==> against_reordered.contains(p),
    ensures
        stale(from, against).contains(name) <==> stale(from_reordered, against_reordered).contains(
            name,
        ),
{
    lemma_stale_contains(from, against, name);
    lemma_stale_contains(from_reordered, against_reordered, name);
    if stale(from, against).contains(name) {
        let i = choose|i: int|
            0 <= i < from.len() && (#[trigger] from[i]).name == name && !carried_over(
                from[i],
                against,
            );
        assert(from.contains(from[i]));
        let k = choose|k: int| 0 <= k < from_reordered.len() && from_reordered[k] == from[i];
        if carried_over(from[i], against_reordered) {
            lemma_carried_over_follows_contents(from[i], against_reordered, against);
        }
        assert(from_reordered[k].name == name && !carried_over(
            from_reordered[k],
            against_reordered,
        ));
    }
    if stale(from_reordered, against_reordered).contains(name) {
        let i = choose|i: int|
            0 <= i < from_reordered.len() && (#[trigger] from_reordered[i]).name == name
                && !carried_over(from_reordered[i], against_reordered);
        assert(from_reordered.contains(from_reordered[i]));
        let k = choose|k: int| 0 <= k < from.len() && from[k] == from_reordered[i];
        if carried_over(from_reordered[i], against) {
            lemma_carried_over_follows_contents(from_reordered[i], against, against_reordered);
        }
        assert(from[k].name == name && !carried_over(from[k], against));
    }
}

} // verus!
