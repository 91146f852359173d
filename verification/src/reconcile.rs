//! What reconciliation makes of a list of servers and a list of images,
//! stated over plain values, and what holds of every outcome.

use crate::application::{
    id_advanced, id_after, lemma_id_advanced_distinct, lemma_id_advanced_step,
    lemma_unnamed_label_injective, unnamed_label, ApplicationView,
};
use crate::models::{ImageType, ImageView, ServerView};
use vstd::multiset::{group_multiset_axioms, lemma_multiset_empty_len, Multiset};
use vstd::prelude::*;
use vstd::seq_lib::{to_multiset_build, to_multiset_len};

verus! {

/// The applications built so far, and the id of the next one.
pub struct Reconciled {
    pub apps: Seq<ApplicationView>,
    pub next_id: nat,
}

/// Whether an image takes part in reconciliation.
pub open spec fn is_snapshot(image: ImageView) -> bool {
    image.image_type == ImageType::Snapshot
}

/// The position of the first application at or after `from` that is named
/// like the server that `image` was taken from; the length of `apps` where
/// there is none.
pub open spec fn first_related_from(apps: Seq<ApplicationView>, image: ImageView, from: int) -> int
    decreases apps.len() - from,
{
    if from < 0 || from >= apps.len() {
        apps.len() as int
    } else if apps[from].is_image_related(image) {
        from
    } else {
        first_related_from(apps, image, from + 1)
    }
}

/// The position of the first application that is named like the server
/// that `image` was taken from; the length of `apps` where there is none.
pub open spec fn first_related(apps: Seq<ApplicationView>, image: ImageView) -> int {
    first_related_from(apps, image, 0)
}

/// What one image does to the applications built so far. An image that is
/// no snapshot does nothing. A snapshot joins the first application named
/// like the server it was taken from; where there is none, it founds an
/// application of its own at the end, which takes the next id.
pub open spec fn attach(state: Reconciled, image: ImageView) -> Reconciled {
    if !is_snapshot(image) {
        state
    } else {
        let at = first_related(state.apps, image);
        if at < state.apps.len() {
            Reconciled { apps: state.apps.update(at, state.apps[at].add_image(image)), ..state }
        } else {
            Reconciled {
                apps: state.apps.push(ApplicationView::fresh(state.next_id).with_image(image)),
                next_id: id_after(state.next_id),
            }
        }
    }
}

/// What a list of images does, one after the other in the list's order.
pub open spec fn attach_all(state: Reconciled, images: Seq<ImageView>) -> Reconciled
    decreases images.len(),
{
    if images.len() == 0 {
        state
    } else {
        attach(attach_all(state, images.drop_last()), images.last())
    }
}

/// One application for each server, in the servers' order, with the ids
/// from `start` on.
pub open spec fn seed(start: nat, servers: Seq<ServerView>) -> Seq<ApplicationView> {
    Seq::new(
        servers.len(),
        |i: int| ApplicationView::fresh(id_advanced(start, i as nat)).with_server(servers[i]),
    )
}

/// The applications that a list of servers and a list of images make, with
/// ids from `start` on.
pub open spec fn reconcile(start: nat, servers: Seq<ServerView>, images: Seq<ImageView>)
    -> Reconciled {
    attach_all(
        Reconciled { apps: seed(start, servers), next_id: id_advanced(start, servers.len()) },
        images,
    )
}

/// The position that [`first_related_from`] gives lies between `from` and
/// the end of the list; no application from `from` up to it is related to
/// the image, and the one at it, if there is one, is.
pub proof fn lemma_first_related_is_first(
    apps: Seq<ApplicationView>,
    image: ImageView,
    from: int,
)
    requires
        0 <= from <= apps.len(),
    ensures
        from <= first_related_from(apps, image, from) <= apps.len(),
        forall|j: int|
            from <= j < first_related_from(apps, image, from) ==> !(#[trigger] apps[j]).is_image_related(
                image,
            ),
        first_related_from(apps, image, from) < apps.len() ==> apps[first_related_from(
            apps,
            image,
            from,
        )].is_image_related(image),
    decreases apps.len() - from,
{
    if from < apps.len() && !apps[from].is_image_related(image) {
        lemma_first_related_is_first(apps, image, from + 1);
    }
}

/// There is one such position only: a position that no related application
/// lies before, from `from` on, and that holds one, unless it is the end of
/// the list, is the one that [`first_related_from`] gives.
pub proof fn lemma_first_related_from(
    apps: Seq<ApplicationView>,
    image: ImageView,
    from: int,
    at: int,
)
    requires
        0 <= from <= at <= apps.len(),
        forall|j: int| from <= j < at ==> !apps[j].is_image_related(image),
        at < apps.len() ==> apps[at].is_image_related(image),
    ensures
        first_related_from(apps, image, from) == at,
    decreases at - from,
{
    if from < at {
        lemma_first_related_from(apps, image, from + 1, at);
    }
}

/// Whether the ids of `state` are those that a counter started at `start`
/// hands out, in the order of the list, with the next one still to come.
pub open spec fn ids_follow(state: Reconciled, start: nat) -> bool {
    &&& state.next_id == id_advanced(start, state.apps.len())
    &&& forall|k: int|
        0 <= k < state.apps.len() ==> (#[trigger] state.apps[k]).id == id_advanced(start, k as nat)
}

/// Whether every application of `apps` has a name and a state.
pub open spec fn all_complete(apps: Seq<ApplicationView>) -> bool {
    forall|k: int| 0 <= k < apps.len() ==> (#[trigger] apps[k]).is_complete()
}

/// Whether `apps` begins with one application for each server, in the
/// servers' order: named after the server, in its state, holding it alone.
pub open spec fn begins_with_servers(apps: Seq<ApplicationView>, servers: Seq<ServerView>) -> bool {
    &&& servers.len() <= apps.len()
    &&& forall|k: int|
        0 <= k < servers.len() ==> {
            &&& (#[trigger] apps[k]).name == Some(servers[k].name)
            &&& apps[k].status == Some(servers[k].status.text())
            &&& apps[k].servers == Some(seq![servers[k]])
        }
}

/// Whether every application of `apps` from position `from` on was founded
/// by an image: it holds no server, and at least one image.
pub open spec fn founded_by_images(apps: Seq<ApplicationView>, from: int) -> bool {
    forall|k: int|
        from <= k < apps.len() ==> (#[trigger] apps[k]).servers is None && held_images(apps[k]) >= 1
}

/// The number of images that an application holds.
pub open spec fn held_images(app: ApplicationView) -> nat {
    match app.images {
        Some(images) => images.len(),
        None => 0,
    }
}

/// The images that an application holds, each as often as it holds it.
pub open spec fn images_of(app: ApplicationView) -> Multiset<ImageView> {
    match app.images {
        Some(images) => images.to_multiset(),
        None => Multiset::empty(),
    }
}

/// The images that the applications of a list hold between them, each as
/// often as it is held.
pub open spec fn images_of_all(apps: Seq<ApplicationView>) -> Multiset<ImageView>
    decreases apps.len(),
{
    if apps.len() == 0 {
        Multiset::empty()
    } else {
        images_of_all(apps.drop_last()).add(images_of(apps.last()))
    }
}

proof fn lemma_attach_keeps(
    state: Reconciled,
    image: ImageView,
    start: nat,
    servers: Seq<ServerView>,
)
    requires
        ids_follow(state, start),
        all_complete(state.apps),
        begins_with_servers(state.apps, servers),
        founded_by_images(state.apps, servers.len() as int),
    ensures
        ids_follow(attach(state, image), start),
        all_complete(attach(state, image).apps),
        begins_with_servers(attach(state, image).apps, servers),
        founded_by_images(attach(state, image).apps, servers.len() as int),
        attach(state, image).apps.len() >= state.apps.len(),
        attach(state, image).apps.len() <= state.apps.len() + 1,
        images_of_all(attach(state, image).apps) == if is_snapshot(image) {
            images_of_all(state.apps).insert(image)
        } else {
            images_of_all(state.apps)
        },
{
    broadcast use group_multiset_axioms;

    lemma_id_advanced_step(start, state.apps.len());
    let at = first_related(state.apps, image);
    lemma_first_related_is_first(state.apps, image, 0);
    if is_snapshot(image) {
        if at < state.apps.len() {
            let joined = state.apps[at].add_image(image);
            let before = images_of_all(state.apps);
            let after = images_of_all(state.apps.update(at, joined));
            lemma_images_of_joined(state.apps[at], image);
            lemma_images_of_all_update(state.apps, at, joined);
            assert forall|other: ImageView| after.count(other) == before.insert(image).count(
                other,
            ) by {
                let held = images_of(state.apps[at]);
                assert(after.add(held).count(other) == before.add(held.insert(image)).count(
                    other,
                ));
            }
        } else {
            let founded = ApplicationView::fresh(state.next_id).with_image(image);
            lemma_images_of_founded(state.next_id, image);
            lemma_images_of_all_push(state.apps, founded);
        }
    }
}

proof fn lemma_images_of_joined(app: ApplicationView, image: ImageView)
    ensures
        images_of(app.add_image(image)) == images_of(app).insert(image),
        held_images(app.add_image(image)) == held_images(app) + 1,
{
    match app.images {
        Some(images) => {
            to_multiset_build(images, image);
        },
        None => {
            lemma_images_of_founded(app.id, image);
        },
    }
}

proof fn lemma_images_of_founded(id: nat, image: ImageView)
    ensures
        seq![image].to_multiset() == Multiset::<ImageView>::empty().insert(image),
        images_of(ApplicationView::fresh(id).with_image(image)) == Multiset::<ImageView>::empty().insert(
            image,
        ),
{
    let none = Seq::<ImageView>::empty();
    lemma_no_images();
    to_multiset_build(none, image);
}

proof fn lemma_no_images()
    ensures
        Seq::<ImageView>::empty().to_multiset() == Multiset::<ImageView>::empty(),
{
    let none = Seq::<ImageView>::empty();
    to_multiset_len(none);
    lemma_multiset_empty_len(none.to_multiset());
}

proof fn lemma_images_of_all_push(apps: Seq<ApplicationView>, app: ApplicationView)
    ensures
        images_of_all(apps.push(app)) == images_of_all(apps).add(images_of(app)),
{
    assert(apps.push(app).drop_last() =~= apps);
}

proof fn lemma_images_of_all_update(apps: Seq<ApplicationView>, at: int, app: ApplicationView)
    requires
        0 <= at < apps.len(),
    ensures
        images_of_all(apps.update(at, app)).add(images_of(apps[at])) =~= images_of_all(apps).add(
            images_of(app),
        ),
    decreases apps.len(),
{
    broadcast use group_multiset_axioms;

    let changed = apps.update(at, app);
    let changed_rest = images_of_all(changed.drop_last());
    if at == apps.len() - 1 {
        assert(changed.drop_last() =~= apps.drop_last());
    } else {
        lemma_images_of_all_update(apps.drop_last(), at, app);
        assert(changed.drop_last() =~= apps.drop_last().update(at, app));
        assert(changed_rest.add(images_of(apps[at])).add(images_of(apps.last())) =~= changed_rest.add(
            images_of(apps.last()),
        ).add(images_of(apps[at])));
    }
}

proof fn lemma_images_of_all_seed(start: nat, servers: Seq<ServerView>)
    ensures
        images_of_all(seed(start, servers)) == Multiset::<ImageView>::empty(),
    decreases servers.len(),
{
    broadcast use group_multiset_axioms;

    if servers.len() > 0 {
        lemma_images_of_all_seed(start, servers.drop_last());
        assert(seed(start, servers).drop_last() =~= seed(start, servers.drop_last()));
    }
}

proof fn lemma_attach_all_keeps(
    state: Reconciled,
    images: Seq<ImageView>,
    start: nat,
    servers: Seq<ServerView>,
)
    requires
        ids_follow(state, start),
        all_complete(state.apps),
        begins_with_servers(state.apps, servers),
        founded_by_images(state.apps, servers.len() as int),
    ensures
        ids_follow(attach_all(state, images), start),
        all_complete(attach_all(state, images).apps),
        begins_with_servers(attach_all(state, images).apps, servers),
        founded_by_images(attach_all(state, images).apps, servers.len() as int),
        state.apps.len() <= attach_all(state, images).apps.len() <= state.apps.len() + images.len(),
        images_of_all(attach_all(state, images).apps) == images_of_all(state.apps).add(
            images.filter(|image: ImageView| is_snapshot(image)).to_multiset(),
        ),
    decreases images.len(),
{
    broadcast use group_multiset_axioms;

    let keep = |image: ImageView| is_snapshot(image);
    reveal(Seq::filter);
    if images.len() > 0 {
        let rest = images.drop_last();
        lemma_attach_all_keeps(state, rest, start, servers);
        lemma_attach_keeps(attach_all(state, rest), images.last(), start, servers);
        if keep(images.last()) {
            to_multiset_build(rest.filter(keep), images.last());
        }
    } else {
        lemma_no_images();
        assert(images.filter(keep) =~= Seq::<ImageView>::empty());
    }
}

/// With no image, there is exactly one application for each server, in the
/// servers' order; each holds its server alone and no image.
pub proof fn lemma_servers_alone(start: nat, servers: Seq<ServerView>)
    ensures
        reconcile(start, servers, Seq::empty()).apps.len() == servers.len(),
        forall|k: int|
            0 <= k < servers.len() ==> {
                let app = #[trigger] reconcile(start, servers, Seq::empty()).apps[k];
                &&& app.name == Some(servers[k].name)
                &&& app.status == Some(servers[k].status.text())
                &&& app.servers == Some(seq![servers[k]])
                &&& app.images is None
                &&& app.id == id_advanced(start, k as nat)
            },
{
}

/// Images that are no snapshots change nothing: the outcome is the one of
/// the snapshots alone.
pub proof fn lemma_only_snapshots_count(
    start: nat,
    servers: Seq<ServerView>,
    images: Seq<ImageView>,
)
    ensures
        reconcile(start, servers, images) == reconcile(
            start,
            servers,
            images.filter(|image: ImageView| is_snapshot(image)),
        ),
{
    let seeded = Reconciled {
        apps: seed(start, servers),
        next_id: id_advanced(start, servers.len()),
    };
    lemma_attach_all_filtered(seeded, images);
}

proof fn lemma_attach_all_filtered(state: Reconciled, images: Seq<ImageView>)
    ensures
        attach_all(state, images) == attach_all(
            state,
            images.filter(|image: ImageView| is_snapshot(image)),
        ),
    decreases images.len(),
{
    let keep = |image: ImageView| is_snapshot(image);
    reveal(Seq::filter);
    if images.len() > 0 {
        let rest = images.drop_last();
        lemma_attach_all_filtered(state, rest);
        if keep(images.last()) {
            assert(rest.filter(keep).push(images.last()).drop_last() =~= rest.filter(keep));
        }
    }
}

/// The outcome of a reconciliation keeps what it was given: it begins with
/// the servers' applications in the servers' order, and all behind them were
/// founded by images; every application in it has a name and a state; and
/// the ids are those of the counter in the order of the list. It holds no
/// more applications than there were servers and images.
pub proof fn lemma_reconcile_shape(start: nat, servers: Seq<ServerView>, images: Seq<ImageView>)
    ensures
        begins_with_servers(reconcile(start, servers, images).apps, servers),
        founded_by_images(reconcile(start, servers, images).apps, servers.len() as int),
        all_complete(reconcile(start, servers, images).apps),
        ids_follow(reconcile(start, servers, images), start),
        servers.len() <= reconcile(start, servers, images).apps.len() <= servers.len()
            + images.len(),
{
    let seeded = Reconciled {
        apps: seed(start, servers),
        next_id: id_advanced(start, servers.len()),
    };
    lemma_attach_all_keeps(seeded, images, start, servers);
}

/// No snapshot is lost and none is held twice: the images that the
/// applications hold between them are the snapshots, each as often as it
/// came in.
pub proof fn lemma_every_snapshot_is_kept(
    start: nat,
    servers: Seq<ServerView>,
    images: Seq<ImageView>,
)
    ensures
        images_of_all(reconcile(start, servers, images).apps) == images.filter(
            |image: ImageView| is_snapshot(image),
        ).to_multiset(),
{
    let seeded = Reconciled {
        apps: seed(start, servers),
        next_id: id_advanced(start, servers.len()),
    };
    broadcast use group_multiset_axioms;

    let snapshots = images.filter(|image: ImageView| is_snapshot(image)).to_multiset();
    lemma_images_of_all_seed(start, servers);
    lemma_attach_all_keeps(seeded, images, start, servers);
}

/// Two applications of one reconciliation never have the same id, nor,
/// where both were named by their ids, the same name. This holds of every
/// list that fits the machine: one that is no longer than the number of ids.
pub proof fn lemma_unnamed_applications_differ(
    start: nat,
    servers: Seq<ServerView>,
    images: Seq<ImageView>,
    i: int,
    j: int,
)
    requires
        reconcile(start, servers, images).apps.len() <= usize::MAX + 1,
        0 <= i < reconcile(start, servers, images).apps.len(),
        0 <= j < reconcile(start, servers, images).apps.len(),
        i != j,
    ensures
        reconcile(start, servers, images).apps[i].id != reconcile(start, servers, images).apps[j].id,
        unnamed_label(reconcile(start, servers, images).apps[i].id) != unnamed_label(
            reconcile(start, servers, images).apps[j].id,
        ),
{
    let apps = reconcile(start, servers, images).apps;
    lemma_reconcile_shape(start, servers, images);
    if i < j {
        lemma_id_advanced_distinct(start, i as nat, j as nat);
    } else {
        lemma_id_advanced_distinct(start, j as nat, i as nat);
    }
    if unnamed_label(apps[i].id) == unnamed_label(apps[j].id) {
        lemma_unnamed_label_injective(apps[i].id, apps[j].id);
    }
}

} // verus!
