//! Applications: a server together with the snapshots taken from it, or a
//! snapshot that belongs to no server. [`generate_application_list`] groups
//! freshly fetched servers and images into them.

use crate::decimal::{decimal, lemma_decimal_injective, push_decimal};
use crate::models::{image_views, server_views, Image, ImageType, ImageView, Server, ServerView};
use crate::reconcile::{attach_all, lemma_first_related_from, reconcile, seed, Reconciled};
use vstd::arithmetic::div_mod::{
    lemma_add_mod_noop, lemma_mod_bound, lemma_mod_equivalence, lemma_mod_self_0, lemma_small_mod,
};
use vstd::prelude::*;
use vstd::string::*;

verus! {

/// Hands out the ids of applications, one after the other.
#[derive(Debug)]
pub struct IdCounter {
    next: usize,
}

impl View for IdCounter {
    type V = nat;

    /// The id that is handed out next.
    closed spec fn view(&self) -> nat {
        self.next as nat
    }
}

impl IdCounter {
    /// A counter whose first id is 0.
    pub fn new() -> (counter: Self)
        ensures
            counter@ == 0,
    {
        IdCounter { next: 0 }
    }

    /// A counter whose first id is `first`.
    pub fn starting_at(first: usize) -> (counter: Self)
        ensures
            counter@ == first,
    {
        IdCounter { next: first }
    }
}

/// The id that follows `id`. After the largest id that fits the machine's
/// word the count starts over at 0.
pub open spec fn id_after(id: nat) -> nat {
    if id < usize::MAX {
        id + 1
    } else {
        0
    }
}

/// The id that comes `steps` ids after `id`.
pub open spec fn id_advanced(id: nat, steps: nat) -> nat {
    (id + steps) % (usize::MAX as nat + 1)
}

/// Advancing by one more step is taking the id after.
pub proof fn lemma_id_advanced_step(id: nat, steps: nat)
    ensures
        id_advanced(id, steps + 1) == id_after(id_advanced(id, steps)),
        id_advanced(id, steps) <= usize::MAX,
{
    let m = usize::MAX as int + 1;
    let r = (id + steps) as int % m;
    lemma_mod_bound((id + steps) as int, m);
    lemma_add_mod_noop((id + steps) as int, 1, m);
    lemma_small_mod(1, m as nat);
    if r + 1 < m {
        lemma_small_mod((r + 1) as nat, m as nat);
    } else {
        lemma_mod_self_0(m);
    }
}

/// Advancing by no step leaves an id of the machine where it is.
pub proof fn lemma_id_advanced_zero(id: nat)
    requires
        id <= usize::MAX,
    ensures
        id_advanced(id, 0) == id,
{
    lemma_small_mod(id, usize::MAX as nat + 1);
}

/// Two ids that lie fewer steps apart than the machine has ids differ.
pub proof fn lemma_id_advanced_distinct(id: nat, i: nat, j: nat)
    requires
        i < j,
        j - i <= usize::MAX,
    ensures
        id_advanced(id, i) != id_advanced(id, j),
{
    let m = usize::MAX as int + 1;
    lemma_mod_equivalence((id + j) as int, (id + i) as int, m);
    lemma_small_mod((j - i) as nat, m as nat);
}

/// Moves the counter on by one id.
pub fn bump_counter(counter: &mut IdCounter)
    ensures
        final(counter)@ == id_after(old(counter)@),
{
    counter.next = if counter.next < usize::MAX {
        counter.next + 1
    } else {
        0
    };
}

/// The id that the counter hands out next.
pub fn get_counter(counter: &IdCounter) -> (next: usize)
    ensures
        next == counter@,
{
    counter.next
}

/// Takes the next id off the counter.
pub fn get_id(counter: &mut IdCounter) -> (id: usize)
    ensures
        id == old(counter)@,
        final(counter)@ == id_after(old(counter)@),
{
    let id: usize = get_counter(counter);
    bump_counter(counter);
    id
}

/// The name given to an application whose image has none.
pub open spec fn unnamed_label(id: nat) -> Seq<char> {
    "unnamed "@ + decimal(id)
}

/// Applications with different ids never share a made-up name.
pub proof fn lemma_unnamed_label_injective(a: nat, b: nat)
    requires
        unnamed_label(a) == unnamed_label(b),
    ensures
        a == b,
{
    let prefix = "unnamed "@;
    assert(unnamed_label(a).subrange(prefix.len() as int, unnamed_label(a).len() as int)
        == decimal(a));
    assert(unnamed_label(b).subrange(prefix.len() as int, unnamed_label(b).len() as int)
        == decimal(b));
    lemma_decimal_injective(a, b);
}

/// A server with its snapshots, or a snapshot on its own.
#[derive(Debug, PartialEq, Eq)]
pub struct Application {
    pub id: usize,
    pub name: Option<String>,
    pub status: Option<String>,
    pub images: Option<Vec<Image>>,
    pub servers: Option<Vec<Server>>,
}

/// What an [`Application`] holds, as plain values.
pub struct ApplicationView {
    pub id: nat,
    pub name: Option<Seq<char>>,
    pub status: Option<Seq<char>>,
    pub images: Option<Seq<ImageView>>,
    pub servers: Option<Seq<ServerView>>,
}

impl View for Application {
    type V = ApplicationView;

    open spec fn view(&self) -> ApplicationView {
        ApplicationView {
            id: self.id as nat,
            name: match self.name {
                Some(name) => Some(name@),
                None => None,
            },
            status: match self.status {
                Some(status) => Some(status@),
                None => None,
            },
            images: match self.images {
                Some(images) => Some(image_views(images@)),
                None => None,
            },
            servers: match self.servers {
                Some(servers) => Some(server_views(servers@)),
                None => None,
            },
        }
    }
}

/// The views of a list of applications, in the list's order.
pub open spec fn application_views(apps: Seq<Application>) -> Seq<ApplicationView> {
    apps.map_values(|app: Application| app@)
}

impl ApplicationView {
    /// An application that has its id and nothing else yet.
    pub open spec fn fresh(id: nat) -> ApplicationView {
        ApplicationView { id, name: None, status: None, images: None, servers: None }
    }

    /// `self`, named after `server`, in its state, and holding it alone.
    pub open spec fn with_server(self, server: ServerView) -> ApplicationView {
        ApplicationView {
            name: Some(server.name),
            status: Some(server.status.text()),
            servers: Some(seq![server]),
            ..self
        }
    }

    /// `self`, named after `image` (by its id where the image has no name),
    /// in its state, and holding it alone.
    pub open spec fn with_image(self, image: ImageView) -> ApplicationView {
        ApplicationView {
            name: Some(
                match image.name {
                    Some(name) => name,
                    None => unnamed_label(self.id),
                },
            ),
            status: Some(image.status.text()),
            images: Some(seq![image]),
            ..self
        }
    }

    /// Whether `image` was taken from the server that `self` is named after.
    pub open spec fn is_image_related(self, image: ImageView) -> bool {
        &&& image.created_from matches Some(source)
        &&& self.name matches Some(name)
        &&& source.name == name
    }

    /// `self` with `image` behind the images it holds already.
    pub open spec fn add_image(self, image: ImageView) -> ApplicationView {
        ApplicationView {
            images: Some(
                match self.images {
                    Some(images) => images.push(image),
                    None => seq![image],
                },
            ),
            ..self
        }
    }

    /// Whether `self` is complete: it has a name and a state.
    pub open spec fn is_complete(self) -> bool {
        self.name is Some && self.status is Some
    }
}

impl Clone for Application {
    fn clone(&self) -> (copy: Self)
        ensures
            copy@ == self@,
    {
        Application {
            id: self.id,
            name: match &self.name {
                Some(name) => Some(name.clone()),
                None => None,
            },
            status: match &self.status {
                Some(status) => Some(status.clone()),
                None => None,
            },
            images: match &self.images {
                Some(images) => Some(images.clone()),
                None => None,
            },
            servers: match &self.servers {
                Some(servers) => Some(servers.clone()),
                None => None,
            },
        }
    }
}

impl Application {
    /// An application with the counter's next id and nothing else yet.
    pub fn new(counter: &mut IdCounter) -> (app: Self)
        ensures
            app@ == ApplicationView::fresh(old(counter)@),
            final(counter)@ == id_after(old(counter)@),
    {
        Self { id: get_id(counter), name: None, status: None, images: None, servers: None }
    }

    /// Names the application after `server`, puts it in the server's state
    /// and lets it hold the server alone.
    pub fn with_server(self, server: &Server) -> (app: Self)
        ensures
            app@ == self@.with_server(server@),
    {
        let mut app = self;
        app.name = Some(server.name.clone());
        app.status = Some(server.status.to_string());
        let servers = vec![server.clone()];
        assert(server_views(servers@) =~= seq![server@]);
        app.servers = Some(servers);
        app
    }

    /// Names the application after `image`, or by its own id where the image
    /// has no name, puts it in the image's state and lets it hold the image
    /// alone.
    pub fn with_image(self, image: &Image) -> (app: Self)
        ensures
            app@ == self@.with_image(image@),
    {
        let mut app = self;
        match &image.name {
            None => {
                let mut name = String::from_str("unnamed ");
                push_decimal(&mut name, app.id as u64);
                app.name = Some(name);
            },
            Some(name) => {
                app.name = Some(name.clone());
            },
        }
        app.status = Some(image.status.to_string());
        let images = vec![image.clone()];
        assert(image_views(images@) =~= seq![image@]);
        app.images = Some(images);
        app
    }

    /// Whether `image` was taken from the server that the application is
    /// named after.
    pub fn is_image_related(&self, image: &Image) -> (related: bool)
        ensures
            related == self@.is_image_related(image@),
    {
        match (&image.created_from, &self.name) {
            (Some(source), Some(name)) => source.name == *name,
            _ => false,
        }
    }

    /// Puts `image` behind the images that the application holds already.
    pub fn add_image(&mut self, image: &Image)
        ensures
            final(self)@ == old(self)@.add_image(image@),
    {
        let mut images = match self.images.take() {
            Some(images) => images,
            None => Vec::new(),
        };
        let ghost before = images@;
        images.push(image.clone());
        assert(image_views(images@) =~= image_views(before).push(image@));
        assert(image_views(Seq::<Image>::empty()).push(image@) =~= seq![image@]);
        self.images = Some(images);
    }
}

/// Builds the applications of a fetch: one for each server, in the servers'
/// order, then every snapshot either joined to the first application named
/// like the server it was taken from, or made an application of its own
/// behind all earlier ones. Images that are no snapshots are left out.
/// The ids come off `counter`.
pub fn generate_application_list(
    counter: &mut IdCounter,
    servers: &Vec<Server>,
    images: &Vec<Image>,
) -> (apps: Vec<Application>)
    ensures
        application_views(apps@) == reconcile(
            old(counter)@,
            server_views(servers@),
            image_views(images@),
        ).apps,
        final(counter)@ == reconcile(
            old(counter)@,
            server_views(servers@),
            image_views(images@),
        ).next_id,
{
    let ghost start = counter@;
    let ghost seeded = Reconciled {
        apps: seed(start, server_views(servers@)),
        next_id: id_advanced(start, servers.len() as nat),
    };
    let mut apps: Vec<Application> = Vec::new();
    proof {
        lemma_id_advanced_zero(start);
    }

    let mut i: usize = 0;
    while i < servers.len()
        invariant
            i <= servers.len(),
            counter@ == id_advanced(start, i as nat),
            application_views(apps@) == seed(start, server_views(servers@)).take(i as int),
        decreases servers.len() - i,
    {
        let ghost before = apps@;
        let app = Application::new(counter).with_server(&servers[i]);
        apps.push(app);
        proof {
            lemma_id_advanced_step(start, i as nat);
            assert(application_views(apps@) =~= application_views(before).push(app@));
        }
        i = i + 1;
    }
    assert(application_views(apps@) =~= seeded.apps);

    let mut i: usize = 0;
    while i < images.len()
        invariant
            i <= images.len(),
            (Reconciled { apps: application_views(apps@), next_id: counter@ }) == attach_all(
                seeded,
                image_views(images@).take(i as int),
            ),
        decreases images.len() - i,
    {
        let image = &images[i];
        let ghost state = Reconciled { apps: application_views(apps@), next_id: counter@ };
        assert(image_views(images@).take(i + 1).drop_last() =~= image_views(images@).take(
            i as int,
        ));
        if image.image_type == ImageType::Snapshot {
            let mut at: usize = 0;
            while at < apps.len() && !apps[at].is_image_related(image)
                invariant
                    at <= apps.len(),
                    state.apps == application_views(apps@),
                    forall|j: int|
                        0 <= j < at ==> !(#[trigger] state.apps[j]).is_image_related(image@),
                decreases apps.len() - at,
            {
                at = at + 1;
            }
            proof {
                lemma_first_related_from(state.apps, image@, 0, at as int);
            }
            if at < apps.len() {
                apps[at].add_image(image);
                assert(application_views(apps@) =~= state.apps.update(
                    at as int,
                    state.apps[at as int].add_image(image@),
                ));
            } else {
                let ghost before = apps@;
                let app = Application::new(counter).with_image(image);
                apps.push(app);
                assert(application_views(apps@) =~= application_views(before).push(app@));
            }
        }
        i = i + 1;
    }
    assert(image_views(images@).take(i as int) =~= image_views(images@));
    apps
}

} // verus!
