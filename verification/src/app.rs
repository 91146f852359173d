//! The dashboard's state and the decisions it takes: when a fetch may start,
//! what a finished fetch changes, which origins are waiting for one, and how
//! the token is kept when the state is saved and loaded.

use crate::application::{generate_application_list, IdCounter};
use crate::models::{image_views, server_views, Image, Server};
use crate::reconcile::reconcile;
use crate::remote::{
    error_views, Data, DataView, ErrorEntry, ErrorEntryView, RemoteData, RemoteDataView,
};
use crate::secret::{
    decryption_of, is_encryption_of, token_frame, Key, Secret, SecretError, SecretView, SharedKey,
};
use crate::timestamp::{age_label, Timestamp};
use vstd::hash_set::StringHashSet;
use vstd::prelude::*;
use vstd::string::*;

verus! {

/// The message of a request made while no endpoint is configured.
pub const NO_API_ENDPOINT: &'static str = "No API endpoint configured";

/// The message of a request made while no token is at hand in the clear.
pub const NO_API_CREDENTIAL: &'static str = "No valid Api configuration";

/// The origin of the refresh control in the status bar.
pub const API_ORIGIN: &'static str = "status_bar";

/// The provider that requests go to.
#[derive(Debug, Clone, Copy, PartialEq, Eq, Structural)]
pub enum Endpoints {
    Unconfigured,
    Hcloud,
}

/// The state of the window in which the user enters the API token.
#[derive(Debug, PartialEq, Eq)]
pub struct ApiPerfsData {
    pub buf: String,
    pub open: bool,
}

/// What [`ApiPerfsData`] holds, as plain values.
pub struct ApiPerfsView {
    pub buf: Seq<char>,
    pub open: bool,
}

impl View for ApiPerfsData {
    type V = ApiPerfsView;

    open spec fn view(&self) -> ApiPerfsView {
        ApiPerfsView { buf: self.buf@, open: self.open }
    }
}

impl Clone for ApiPerfsData {
    fn clone(&self) -> (copy: Self)
        ensures
            copy == *self,
    {
        ApiPerfsData { buf: self.buf.clone(), open: self.open }
    }
}

impl Default for ApiPerfsData {
    fn default() -> (data: Self)
        ensures
            data@ == (ApiPerfsView { buf: Seq::empty(), open: false }),
    {
        ApiPerfsData { buf: String::new(), open: false }
    }
}

/// What the caller of a request has to do next.
#[derive(Debug, PartialEq, Eq)]
pub enum FetchAction {
    /// Nothing: the request was refused, and the refusal, which is held
    /// here, has been recorded already.
    Rejected(RemoteData),
    /// Fetch servers and images with `api_key`, and hand the outcome in
    /// under `origin`.
    Fetch { api_key: Key, origin: String },
}

/// What a [`FetchAction`] holds, as plain values.
pub enum FetchActionView {
    Rejected(RemoteDataView),
    Fetch { api_key: Seq<char>, origin: Seq<char> },
}

impl View for FetchAction {
    type V = FetchActionView;

    open spec fn view(&self) -> FetchActionView {
        match self {
            FetchAction::Rejected(remote) => FetchActionView::Rejected(remote@),
            FetchAction::Fetch { api_key, origin } => FetchActionView::Fetch {
                api_key: api_key@,
                origin: origin@,
            },
        }
    }
}

/// The choice of control that starts a fetch.
#[derive(Debug, Clone, Copy, PartialEq, Eq, Structural)]
pub enum RefreshControl {
    /// A fetch is under way: show that, and offer nothing.
    Spinner,
    /// A fetch can be started.
    Refresh,
    /// No token is at hand: the control is switched off.
    Disabled,
}

/// The dashboard's state.
pub struct ServerCruncherApp {
    pub local_key: SharedKey,
    pub endpoint: Endpoints,
    pub hcloud_api_secret: Option<Secret>,
    pub application_list: Option<RemoteData>,
    pub remote_loading: StringHashSet,
    pub error_log: Vec<ErrorEntry>,
    pub show_error_log: bool,
    pub api_perfs: ApiPerfsData,
}

/// The short name of the dashboard's state.
pub type App = ServerCruncherApp;

/// The dashboard's state as plain values: what the contracts speak of.
pub struct AppView {
    pub local_key: Seq<u8>,
    pub endpoint: Endpoints,
    pub secret: Option<SecretView>,
    pub application_list: Option<RemoteDataView>,
    /// The origins that wait for a fetch to end.
    pub loading: Set<Seq<char>>,
    pub error_log: Seq<ErrorEntryView>,
    pub show_error_log: bool,
    pub api_perfs: ApiPerfsView,
}

impl View for ServerCruncherApp {
    type V = AppView;

    open spec fn view(&self) -> AppView {
        AppView {
            local_key: self.local_key@,
            endpoint: self.endpoint,
            secret: match self.hcloud_api_secret {
                Some(secret) => Some(secret@),
                None => None,
            },
            application_list: match self.application_list {
                Some(remote) => Some(remote@),
                None => None,
            },
            loading: self.remote_loading@,
            error_log: error_views(self.error_log@),
            show_error_log: self.show_error_log,
            api_perfs: self.api_perfs@,
        }
    }
}

/// The envelope that reports `message` to `origin`.
pub open spec fn error_envelope(message: Seq<char>, origin: Seq<char>, now: Timestamp)
    -> RemoteDataView {
    RemoteDataView { data: DataView::Error(message), updated_at: now, origin }
}

impl AppView {
    /// The token, where one is at hand in the clear.
    pub open spec fn credential(self) -> Option<Seq<char>> {
        match self.secret {
            Some(SecretView::Unencrypted(token)) => Some(token),
            _ => None,
        }
    }

    /// Whether `origin` waits for a fetch to end.
    pub open spec fn is_loading(self, origin: Seq<char>) -> bool {
        self.loading.contains(origin)
    }

    /// The state in which `origin` waits for a fetch to end.
    pub open spec fn set_loading(self, origin: Seq<char>) -> AppView {
        AppView { loading: self.loading.insert(origin), ..self }
    }

    /// The state in which `origin` waits no longer.
    pub open spec fn unset_loading(self, origin: Seq<char>) -> AppView {
        AppView { loading: self.loading.remove(origin), ..self }
    }

    /// The state after `remote` has come in. Its origin waits no longer.
    /// Data replaces the last result; an error is added to the log, with
    /// the envelope's time, and the log is brought up.
    pub open spec fn handle_incoming_remote(self, remote: RemoteDataView) -> AppView {
        match remote.data {
            DataView::Application(_) => AppView {
                loading: self.loading.remove(remote.origin),
                application_list: Some(remote),
                ..self
            },
            DataView::Error(message) => AppView {
                error_log: self.error_log.push(
                    ErrorEntryView { error: message, ts: remote.updated_at },
                ),
                loading: self.loading.remove(remote.origin),
                show_error_log: true,
                ..self
            },
        }
    }

    /// The state after each of `remotes` has come in, in their order.
    pub open spec fn handle_incoming_remotes(self, remotes: Seq<RemoteDataView>) -> AppView
        decreases remotes.len(),
    {
        if remotes.len() == 0 {
            self
        } else {
            self.handle_incoming_remotes(remotes.drop_last()).handle_incoming_remote(remotes.last())
        }
    }

    /// What a request for `origin` at `now` does: the state after it, and
    /// what the caller has to do.
    pub open spec fn request(self, origin: Seq<char>, now: Timestamp) -> (
        AppView,
        FetchActionView,
    ) {
        match self.endpoint {
            Endpoints::Unconfigured => Unconfigured.outcome(self, origin, now),
            Endpoints::Hcloud => Hetzner.outcome(self, origin, now),
        }
    }

    /// The control that the status bar shows for `origin`.
    pub open spec fn refresh_control(self, origin: Seq<char>) -> RefreshControl {
        if self.is_loading(origin) {
            RefreshControl::Spinner
        } else if self.credential() is Some {
            RefreshControl::Refresh
        } else {
            RefreshControl::Disabled
        }
    }

    /// The state after a load from storage: a stored token is decrypted
    /// under the local key, and the endpoint is the provider's.
    pub open spec fn restored(self) -> Result<AppView, SecretError> {
        match self.secret {
            None => Ok(self),
            Some(secret) => match decryption_of(self.local_key, secret) {
                Ok(cleared) => Ok(
                    AppView { secret: Some(cleared), endpoint: Endpoints::Hcloud, ..self },
                ),
                Err(error) => Err(error),
            },
        }
    }

    /// Whether `self` is a state with nothing in it yet.
    pub open spec fn is_blank(self) -> bool {
        &&& self.endpoint == Endpoints::Unconfigured
        &&& self.secret is None
        &&& self.application_list is None
        &&& self.loading == Set::<Seq<char>>::empty()
        &&& self.error_log == Seq::<ErrorEntryView>::empty()
        &&& !self.show_error_log
        &&& self.api_perfs == (ApiPerfsView { buf: Seq::empty(), open: false })
    }
}

/// Whether `after` and `action` answer a request that `origin` made at `now`
/// in the state `app`. There are two answers. One is a fetch with the token
/// that is at hand in the clear, for which `origin` waits from now on. The
/// other is a refusal, made out to `origin` and stamped `now`, that has been
/// taken in already.
pub open spec fn answers_request(
    app: AppView,
    origin: Seq<char>,
    now: Timestamp,
    after: AppView,
    action: FetchActionView,
) -> bool {
    match action {
        FetchActionView::Fetch { api_key, origin: tag } => {
            &&& tag == origin
            &&& app.credential() == Some(api_key)
            &&& after == app.set_loading(origin)
        },
        FetchActionView::Rejected(refusal) => {
            &&& refusal.origin == origin
            &&& refusal.updated_at == now
            &&& refusal.data is Error
            &&& after == app.handle_incoming_remote(refusal)
        },
    }
}

/// A source of applications.
pub trait Endpoint {
    /// What a request for `origin` at `now` does through this endpoint: the
    /// state after it, and what the caller has to do.
    spec fn outcome(&self, app: AppView, origin: Seq<char>, now: Timestamp) -> (
        AppView,
        FetchActionView,
    );

    /// Answers a request for the applications that `origin` makes at `now`.
    fn req_application_list(
        &self,
        app: &mut ServerCruncherApp,
        origin: &str,
        now: Timestamp,
    ) -> (action: FetchAction)
        ensures
            (final(app)@, action@) == self.outcome(old(app)@, origin@, now),
            answers_request(old(app)@, origin@, now, final(app)@, action@),
    ;
}

/// The endpoint of a dashboard that has none yet: it refuses every request.
#[derive(Debug, Clone, Copy)]
pub struct Unconfigured;

/// The endpoint of the provider.
#[derive(Debug, Clone, Copy)]
pub struct Hetzner;

impl Endpoint for Unconfigured {
    open spec fn outcome(&self, app: AppView, origin: Seq<char>, now: Timestamp) -> (
        AppView,
        FetchActionView,
    ) {
        let refusal = error_envelope(NO_API_ENDPOINT@, origin, now);
        (app.handle_incoming_remote(refusal), FetchActionView::Rejected(refusal))
    }

    fn req_application_list(
        &self,
        app: &mut ServerCruncherApp,
        origin: &str,
        now: Timestamp,
    ) -> (action: FetchAction) {
        app.reject(NO_API_ENDPOINT, origin, now)
    }
}

impl Endpoint for Hetzner {
    open spec fn outcome(&self, app: AppView, origin: Seq<char>, now: Timestamp) -> (
        AppView,
        FetchActionView,
    ) {
        match app.credential() {
            Some(token) => (
                app.set_loading(origin),
                FetchActionView::Fetch { api_key: token, origin },
            ),
            None => {
                let refusal = error_envelope(NO_API_CREDENTIAL@, origin, now);
                (app.handle_incoming_remote(refusal), FetchActionView::Rejected(refusal))
            },
        }
    }

    fn req_application_list(
        &self,
        app: &mut ServerCruncherApp,
        origin: &str,
        now: Timestamp,
    ) -> (action: FetchAction) {
        let api_key = match &app.hcloud_api_secret {
            Some(Secret::Unencrypted(key)) => Some(key.clone()),
            _ => None,
        };
        match api_key {
            Some(api_key) => {
                app.set_loading(origin);
                FetchAction::Fetch { api_key, origin: String::from_str(origin) }
            },
            None => app.reject(NO_API_CREDENTIAL, origin, now),
        }
    }
}

impl Hetzner {
    /// What a finished fetch hands to the dashboard: the first error, where
    /// one of the two lists could not be had, and else the applications that
    /// the two lists make. The envelope is stamped with the current time of
    /// the system clock.
    pub fn application_list_outcome(
        counter: &mut IdCounter,
        servers: Result<Vec<Server>, String>,
        images: Result<Vec<Image>, String>,
        origin: &str,
    ) -> (remote: RemoteData)
        ensures
            remote.origin@ == origin@,
            match (servers, images) {
                (Err(error), _) => remote.data@ == DataView::Error(error@) && final(counter)@
                    == old(counter)@,
                (Ok(_), Err(error)) => remote.data@ == DataView::Error(error@) && final(counter)@
                    == old(counter)@,
                (Ok(servers), Ok(images)) => {
                    let outcome = reconcile(
                        old(counter)@,
                        server_views(servers@),
                        image_views(images@),
                    );
                    &&& remote.data@ == DataView::Application(outcome.apps)
                    &&& final(counter)@ == outcome.next_id
                },
            },
    {
        let data = match (servers, images) {
            (Err(error), _) => Data::Error(error),
            (Ok(_), Err(error)) => Data::Error(error),
            (Ok(servers), Ok(images)) => Data::Application(
                generate_application_list(counter, &servers, &images),
            ),
        };
        RemoteData::new(data, origin)
    }
}

impl Default for ServerCruncherApp {
    /// A state with nothing in it, and a local key drawn at random.
    fn default() -> (app: Self)
        ensures
            app@.is_blank(),
    {
        let app = ServerCruncherApp {
            local_key: SharedKey::generate(),
            endpoint: Endpoints::Unconfigured,
            hcloud_api_secret: None,
            application_list: None,
            remote_loading: StringHashSet::new(),
            error_log: Vec::new(),
            show_error_log: false,
            api_perfs: ApiPerfsData::default(),
        };
        assert(app@.error_log =~= Seq::<ErrorEntryView>::empty());
        app
    }
}

impl ServerCruncherApp {
    /// The state to start from: what was stored at the last save, with the
    /// token decrypted; a blank state where nothing was stored. A token
    /// that does not decrypt is an error, and no state is given.
    pub fn new(stored: Option<ServerCruncherApp>) -> (loaded: Result<
        ServerCruncherApp,
        SecretError,
    >)
        ensures
            match stored {
                Some(stored) => match loaded {
                    Ok(app) => stored@.restored() == Ok::<AppView, SecretError>(app@),
                    Err(error) => stored@.restored() == Err::<AppView, SecretError>(error),
                },
                None => loaded matches Ok(app) && app@.is_blank(),
            },
    {
        match stored {
            None => Ok(ServerCruncherApp::default()),
            Some(stored) => {
                let mut app = stored;
                match app.hcloud_api_secret.take() {
                    None => Ok(app),
                    Some(secret) => match secret.decrypt(&app.local_key) {
                        Ok(cleared) => {
                            app.hcloud_api_secret = Some(cleared);
                            app.endpoint = Endpoints::Hcloud;
                            Ok(app)
                        },
                        Err(error) => Err(error),
                    },
                }
            },
        }
    }

    /// Makes the state fit to be stored: the token is encrypted under the
    /// local key and stays so. Where the cipher refuses the token, nothing
    /// changes and the state must not be stored.
    pub fn save(&mut self) -> (saved: Result<(), SecretError>)
        ensures
            match saved {
                Ok(_) => {
                    &&& final(self)@ == (AppView { secret: final(self)@.secret, ..old(self)@ })
                    &&& final(self)@.credential() is None
                    &&& match old(self)@.secret {
                        None => final(self)@.secret is None,
                        Some(secret) => {
                            &&& final(self)@.secret matches Some(sealed)
                            &&& is_encryption_of(old(self)@.local_key, sealed, secret)
                        },
                    }
                },
                Err(error) => {
                    &&& final(self)@ == old(self)@
                    &&& error == SecretError::EncryptionFailed
                    &&& old(self)@.credential() matches Some(token)
                    &&& token_frame(token).len() / 64 >= u32::MAX
                },
            },
    {
        let copy = match &self.hcloud_api_secret {
            Some(secret) => Some(secret.clone()),
            None => None,
        };
        match copy {
            None => Ok(()),
            Some(secret) => match secret.encrypt(&self.local_key) {
                Ok(sealed) => {
                    self.hcloud_api_secret = Some(sealed);
                    Ok(())
                },
                Err(error) => Err(error),
            },
        }
    }

    /// Whether a token is at hand in the clear.
    pub fn credential_present(&self) -> (present: bool)
        ensures
            present == (self@.credential() is Some),
    {
        match &self.hcloud_api_secret {
            Some(Secret::Unencrypted(_)) => true,
            _ => false,
        }
    }

    /// Takes `token` as the API token, and the provider as the endpoint.
    pub fn set_credential(&mut self, token: String)
        ensures
            final(self)@ == (AppView {
                secret: Some(SecretView::Unencrypted(token@)),
                endpoint: Endpoints::Hcloud,
                ..old(self)@
            }),
    {
        self.hcloud_api_secret = Some(Secret::Unencrypted(Key(token)));
        self.endpoint = Endpoints::Hcloud;
    }

    /// Whether `origin` waits for a fetch to end.
    pub fn is_loading(&self, origin: &str) -> (loading: bool)
        ensures
            loading == self@.is_loading(origin@),
    {
        self.remote_loading.contains(origin)
    }

    /// Marks `origin` as waiting for a fetch to end.
    pub fn set_loading(&mut self, origin: &str)
        ensures
            final(self)@ == old(self)@.set_loading(origin@),
    {
        self.remote_loading.insert(String::from_str(origin));
    }

    /// Marks `origin` as waiting no longer.
    pub fn unset_loading(&mut self, origin: &str)
        ensures
            final(self)@ == old(self)@.unset_loading(origin@),
    {
        self.remote_loading.remove(origin);
    }

    /// Takes in what a fetch has handed over.
    pub fn handle_incoming_remote(&mut self, remote: RemoteData)
        ensures
            final(self)@ == old(self)@.handle_incoming_remote(remote@),
    {
        let RemoteData { data, updated_at, origin } = remote;
        match data {
            Data::Application(apps) => {
                self.unset_loading(origin.as_str());
                self.application_list = Some(
                    RemoteData { data: Data::Application(apps), updated_at, origin },
                );
            },
            Data::Error(e) => {
                let ghost before = self.error_log@;
                self.error_log.push(ErrorEntry { error: e, ts: updated_at });
                assert(error_views(self.error_log@) =~= error_views(before).push(
                    ErrorEntryView { error: e@, ts: updated_at },
                ));
                self.unset_loading(origin.as_str());
                self.show_error_log = true;
            },
        }
    }

    /// Takes in, one after the other, all that fetches have handed over
    /// since the last time.
    pub fn handle_incoming_remotes(&mut self, remotes: Vec<RemoteData>)
        ensures
            final(self)@ == old(self)@.handle_incoming_remotes(remote_views(remotes@)),
    {
        let ghost all = remote_views(remotes@);
        let ghost start = self@;
        for remote in it: remotes
            invariant
                remote_views(it.seq()) == all,
                self@ == start.handle_incoming_remotes(all.take(it.index() as int)),
        {
            assert(all.take(it.index() + 1).drop_last() =~= all.take(it.index() as int));
            self.handle_incoming_remote(remote);
        }
        assert(all.take(all.len() as int) =~= all);
    }

    /// What the last fetch that brought data handed over, if there was one.
    pub fn last_result(&self) -> (last: Option<&RemoteData>)
        ensures
            match last {
                Some(remote) => self.application_list == Some(*remote),
                None => self.application_list is None,
            },
    {
        self.application_list.as_ref()
    }

    /// The error log, oldest entry first.
    pub fn errors(&self) -> (log: &Vec<ErrorEntry>)
        ensures
            *log == self.error_log,
    {
        &self.error_log
    }

    /// Empties the error log.
    pub fn clear_errors(&mut self)
        ensures
            final(self)@ == (AppView { error_log: Seq::empty(), ..old(self)@ }),
    {
        self.error_log.clear();
        assert(error_views(self.error_log@) =~= Seq::<ErrorEntryView>::empty());
    }

    /// The control that the status bar shows for `origin`: none while
    /// `origin` waits for a fetch, the refresh control while a token is at
    /// hand in the clear, and a control that is switched off otherwise.
    pub fn refresh_control(&self, origin: &str) -> (control: RefreshControl)
        ensures
            control == self@.refresh_control(origin@),
    {
        if self.is_loading(origin) {
            RefreshControl::Spinner
        } else if self.credential_present() {
            RefreshControl::Refresh
        } else {
            RefreshControl::Disabled
        }
    }

    /// What a press of the refresh control does: `origin` is marked as
    /// waiting, and the applications are asked for as of `now`.
    pub fn refresh_at(&mut self, origin: &str, now: Timestamp) -> (action: FetchAction)
        ensures
            (final(self)@, action@) == old(self)@.set_loading(origin@).request(origin@, now),
    {
        self.set_loading(origin);
        self.req_application_list_at(origin, now)
    }

    /// The line of the status bar that says how old the last result is, as
    /// seen at `dt`.
    pub fn last_updated_label(&self, dt: i64) -> (label: String)
        ensures
            label@ == "Last updated: "@ + match self.application_list {
                Some(remote) => age_label(remote.updated_at.elapsed(dt)),
                None => "Never"@,
            },
    {
        let mut label = String::from_str("Last updated: ");
        match &self.application_list {
            Some(remote) => {
                let age = remote.generate_update_label(dt);
                label.append(age.as_str());
            },
            None => {
                label.append("Never");
            },
        }
        label
    }

    /// Opens the window for the API token, unless it is open already. The
    /// window starts out with the token, where one is at hand in the clear,
    /// and empty otherwise.
    pub fn open_api_perfs_window(&mut self)
        ensures
            final(self)@ == if old(self)@.api_perfs.open {
                old(self)@
            } else {
                AppView {
                    api_perfs: ApiPerfsView {
                        buf: match old(self)@.credential() {
                            Some(token) => token,
                            None => Seq::empty(),
                        },
                        open: true,
                    },
                    ..old(self)@
                }
            },
    {
        if !self.api_perfs.open {
            self.api_perfs.buf = match &self.hcloud_api_secret {
                Some(Secret::Unencrypted(Key(token))) => token.clone(),
                _ => String::new(),
            };
            self.api_perfs.open = true;
        }
    }

    /// Whether the window for the API token holds anything to submit.
    pub fn enable_submit(&self) -> (enabled: bool)
        ensures
            enabled == (self@.api_perfs.buf.len() > 0),
    {
        !self.api_perfs.buf.as_str().is_empty()
    }

    /// Takes what the window holds as the API token, and closes the window.
    pub fn submit(&mut self)
        ensures
            final(self)@ == (AppView {
                secret: Some(SecretView::Unencrypted(old(self)@.api_perfs.buf)),
                endpoint: Endpoints::Hcloud,
                api_perfs: ApiPerfsView { open: false, ..old(self)@.api_perfs },
                ..old(self)@
            }),
    {
        self.set_credential(self.api_perfs.buf.clone());
        self.api_perfs.open = false;
    }

    /// Takes over what the user did to the window since it was drawn last:
    /// `buf` is what the window holds now, and `open` tells whether it is
    /// still open. A window is never opened this way.
    pub fn sync_api_perfs_window(&mut self, open: bool, buf: String)
        ensures
            final(self)@ == (AppView {
                api_perfs: ApiPerfsView { buf: buf@, open: old(self)@.api_perfs.open && open },
                ..old(self)@
            }),
    {
        if !open {
            self.api_perfs.open = open;
        }
        self.api_perfs.buf = buf;
    }

    /// Records that a request of `origin` is refused with `message`: the
    /// refusal is taken in at once, like one that a fetch hands over.
    pub fn reject(&mut self, message: &str, origin: &str, now: Timestamp) -> (action: FetchAction)
        ensures
            action@ == FetchActionView::Rejected(error_envelope(message@, origin@, now)),
            final(self)@ == old(self)@.handle_incoming_remote(
                error_envelope(message@, origin@, now),
            ),
    {
        let refusal = RemoteData {
            data: Data::Error(String::from_str(message)),
            updated_at: now,
            origin: String::from_str(origin),
        };
        self.handle_incoming_remote(refusal.clone());
        FetchAction::Rejected(refusal)
    }

    /// Asks for the applications on behalf of `origin`, as of `now`. With a
    /// token in the clear and the provider as endpoint, `origin` is marked
    /// as waiting and the caller is told to fetch. Otherwise the refusal is
    /// recorded at once, and `origin` does not wait.
    pub fn req_application_list_at(&mut self, origin: &str, now: Timestamp) -> (action: FetchAction)
        ensures
            (final(self)@, action@) == old(self)@.request(origin@, now),
            answers_request(old(self)@, origin@, now, final(self)@, action@),
    {
        match self.endpoint {
            Endpoints::Unconfigured => Unconfigured.req_application_list(self, origin, now),
            Endpoints::Hcloud => Hetzner.req_application_list(self, origin, now),
        }
    }

    /// Asks for the applications on behalf of `origin`, as of the current
    /// time of the system clock.
    pub fn req_application_list(&mut self, origin: &str) -> (action: FetchAction)
        ensures
            exists|now: Timestamp|
                (final(self)@, action@) == #[trigger] old(self)@.request(origin@, now),
    {
        let now = Timestamp::now();
        self.req_application_list_at(origin, now)
    }
}

/// The views of a list of envelopes, in the list's order.
pub open spec fn remote_views(remotes: Seq<RemoteData>) -> Seq<RemoteDataView> {
    remotes.map_values(|remote: RemoteData| remote@)
}

/// A request made while no token is at hand in the clear is refused at once:
/// the caller is handed one refusal for the origin that asked, the error log
/// grows by that refusal and by nothing else and is brought up, and the
/// origin does not wait. No origin is made to wait that did not wait before.
pub proof fn lemma_request_without_credential(app: AppView, origin: Seq<char>, now: Timestamp)
    requires
        app.credential() is None,
    ensures
        ({
            let (after, action) = app.request(origin, now);
            &&& action matches FetchActionView::Rejected(refusal)
            &&& refusal.origin == origin
            &&& refusal.updated_at == now
            &&& refusal.data matches DataView::Error(message)
            &&& after.error_log == app.error_log.push(ErrorEntryView { error: message, ts: now })
            &&& after.show_error_log
            &&& !after.is_loading(origin)
            &&& after.loading.subset_of(app.loading)
            &&& after.application_list == app.application_list
        }),
{
}

/// A request made with a token in the clear, through the provider's
/// endpoint, tells the caller to fetch with that token and makes the origin
/// wait. Nothing else changes.
pub proof fn lemma_request_with_credential(
    app: AppView,
    token: Seq<char>,
    origin: Seq<char>,
    now: Timestamp,
)
    requires
        app.credential() == Some(token),
        app.endpoint == Endpoints::Hcloud,
    ensures
        app.request(origin, now) == (
            app.set_loading(origin),
            FetchActionView::Fetch { api_key: token, origin },
        ),
        app.request(origin, now).0.is_loading(origin),
{
}

/// Once the outcome of a fetch has come in, be it data or an error, its
/// origin waits no longer, and every other origin waits exactly if it did
/// before. An outcome for an origin that does not wait leaves the waiting
/// origins as they are.
pub proof fn lemma_resolved_origin_is_idle(app: AppView, remote: RemoteDataView)
    ensures
        app.handle_incoming_remote(remote).loading == app.loading.remove(remote.origin),
        !app.handle_incoming_remote(remote).is_loading(remote.origin),
        forall|other: Seq<char>|
            other != remote.origin ==> app.handle_incoming_remote(remote).is_loading(other)
                == app.is_loading(other),
        !app.is_loading(remote.origin) ==> app.handle_incoming_remote(remote).loading
            == app.loading,
{
    if !app.is_loading(remote.origin) {
    }
}

/// The error log only grows: whatever comes in, and in whatever order, the
/// entries that were in the log stay where they were.
pub proof fn lemma_error_log_only_grows(app: AppView, remotes: Seq<RemoteDataView>)
    ensures
        app.error_log.is_prefix_of(app.handle_incoming_remotes(remotes).error_log),
    decreases remotes.len(),
{
    if remotes.len() > 0 {
        lemma_error_log_only_grows(app, remotes.drop_last());
    }
}

/// A fetch that was asked for and has come to its end leaves the waiting
/// origins as they were before it was asked for, but for its own origin,
/// which does not wait.
pub proof fn lemma_fetch_cycle_ends_idle(
    app: AppView,
    origin: Seq<char>,
    now: Timestamp,
    remote: RemoteDataView,
)
    requires
        remote.origin == origin,
    ensures
        app.request(origin, now).0.handle_incoming_remote(remote).loading == app.loading.remove(
            origin,
        ),
{
    let asked = app.request(origin, now).0;
}

} // verus!
