use vstd::prelude::*;

use crate::command::{binary_name, final_component, is_file_name};
use crate::layer::{blob_verdict, decode_layer, LayerError};
use crate::manifest::lemma_absent_architecture_fails;
use crate::manifest::{resolution, select_digest, ManifestEntry, ManifestError};
use crate::reference::ImageReference;
use crate::registry::{
    accepts, blob_request, blob_url, carries_token, image_manifest_media_type,
    image_manifest_request, manifest_list_media_type, manifest_list_request, manifest_url,
    token_request, token_url, HttpRequest,
};

verus! {

/// Why a run stopped before the command's own exit.
#[derive(Clone, Copy, Debug, PartialEq, Eq, Structural)]
pub enum RunError {
    /// No pull token could be had.
    Auth,
    /// The manifest list or the image manifest gave no usable answer.
    Manifest(ManifestError),
    /// A layer could not be fetched, decoded or unpacked.
    Layer(LayerError),
    /// The staging directory could not be prepared or the binary not copied.
    Filesystem,
    /// The root change, working-directory change or namespace isolation was denied.
    Privilege,
    /// The command could not be spawned.
    Exec,
    /// The command ended by a signal, so there is no exit code to hand on.
    ExitCodeUnavailable,
    /// An event came that the run was not waiting for.
    OutOfOrder,
}

/// Where a run stands: what it has asked its driver to do last.
#[derive(Clone, Copy, Debug, PartialEq, Eq, Structural)]
pub enum Phase {
    PreparingRoot,
    Authenticating,
    ResolvingDigest,
    ListingLayers,
    FetchingLayer,
    Unpacking,
    InstallingBinary,
    ChangingRoot,
    SettingWorkingDir,
    IsolatingPids,
    Running,
    Finished,
}

/// What the driver reports after carrying out an action.
#[derive(Debug)]
pub enum Event {
    /// The action was carried out and gave nothing back.
    Completed,
    /// The pull token that the token service returned.
    Token(String),
    /// The entries of the manifest list.
    ManifestList(Vec<ManifestEntry>),
    /// The layer digests of the image manifest, in its order.
    LayerList(Vec<String>),
    /// The bytes of a layer blob.
    Blob(Vec<u8>),
    /// The spawned command ended; `code` is `None` where a signal ended it.
    Exited { code: Option<i32>, stdout: Vec<u8>, stderr: Vec<u8> },
    /// The action could not be carried out.
    Failed,
}

/// What the driver is to do next.
#[derive(Debug)]
pub enum Action {
    /// Send the GET request and report its decoded answer.
    Fetch(HttpRequest),
    /// Unpack the tar archive into the staging directory.
    Unpack(Vec<u8>),
    /// Create `dev/null` as an empty file in the staging directory.
    PrepareRoot,
    /// Copy the host file `source` to the top of the staging directory as `name`.
    InstallBinary { source: String, name: String },
    /// Make the staging directory the process's root.
    ChangeRoot,
    /// Change the working directory to the new `/`.
    SetWorkingDir,
    /// Move into a new process-ID namespace.
    IsolatePids,
    /// Spawn `program` with `args`, capturing both output streams.
    Spawn { program: String, args: Vec<String> },
    /// Write the captured bytes to standard output and error, then exit with `code`.
    Exit { stdout: Vec<u8>, stderr: Vec<u8>, code: i32 },
    /// Stop the run with the error.
    Abort(RunError),
}

/// One run: what it was asked to do, what it has learnt, and where it stands.
#[derive(Debug)]
pub struct Session {
    pub image: Option<ImageReference>,
    pub command: String,
    pub args: Vec<String>,
    pub arch: String,
    /// The name that the command's executable gets at the new root.
    pub binary: String,
    pub token: String,
    pub layers: Vec<String>,
    /// The index in `layers` of the layer being fetched or unpacked.
    pub next: usize,
    pub phase: Phase,
}

/// The error that a failed action stands for, by the phase it failed in.
pub open spec fn failure_of(p: Phase) -> RunError {
    match p {
        Phase::PreparingRoot | Phase::InstallingBinary => RunError::Filesystem,
        Phase::Authenticating => RunError::Auth,
        Phase::ResolvingDigest | Phase::ListingLayers => RunError::Manifest(
            ManifestError::Unreadable,
        ),
        Phase::FetchingLayer | Phase::Unpacking => RunError::Layer(LayerError::Transfer),
        Phase::ChangingRoot | Phase::SettingWorkingDir | Phase::IsolatingPids => RunError::Privilege,
        Phase::Running => RunError::Exec,
        Phase::Finished => RunError::OutOfOrder,
    }
}

fn failure_kind(p: Phase) -> (r: RunError)
    ensures
        r == failure_of(p),
{
    match p {
        Phase::PreparingRoot | Phase::InstallingBinary => RunError::Filesystem,
        Phase::Authenticating => RunError::Auth,
        Phase::ResolvingDigest | Phase::ListingLayers => RunError::Manifest(
            ManifestError::Unreadable,
        ),
        Phase::FetchingLayer | Phase::Unpacking => RunError::Layer(LayerError::Transfer),
        Phase::ChangingRoot | Phase::SettingWorkingDir | Phase::IsolatingPids => RunError::Privilege,
        Phase::Running => RunError::Exec,
        Phase::Finished => RunError::OutOfOrder,
    }
}

/// The process status that a run stopped by `e` exits with.
pub open spec fn status_of(e: RunError) -> i32 {
    match e {
        RunError::OutOfOrder => 120,
        RunError::Auth => 121,
        RunError::Manifest(_) => 122,
        RunError::Layer(_) => 123,
        RunError::Filesystem => 124,
        RunError::Privilege => 125,
        RunError::Exec => 126,
        RunError::ExitCodeUnavailable => 127,
    }
}

/// The exit status for a run stopped by `e`: non-zero, one for each kind.
pub fn exit_status(e: RunError) -> (r: i32)
    ensures
        r == status_of(e),
        r != 0,
{
    match e {
        RunError::OutOfOrder => 120,
        RunError::Auth => 121,
        RunError::Manifest(_) => 122,
        RunError::Layer(_) => 123,
        RunError::Filesystem => 124,
        RunError::Privilege => 125,
        RunError::Exec => 126,
        RunError::ExitCodeUnavailable => 127,
    }
}

/// The two sessions were set up alike: the same image, command, arguments,
/// architecture and staged name.
pub open spec fn same_setup(a: Session, b: Session) -> bool {
    &&& a.image == b.image
    &&& a.command == b.command
    &&& a.args == b.args
    &&& a.arch == b.arch
    &&& a.binary == b.binary
}

/// The action copies the command's executable under its staged name.
pub open spec fn installs_binary(r: Action, s: Session) -> bool {
    r matches Action::InstallBinary { source, name } && source@ == s.command@ && name@
        == s.binary@
}

/// The action fetches the layer at `i` of the session's list.
pub open spec fn fetches_layer(r: Action, s: Session, name: Seq<char>, i: int) -> bool {
    r matches Action::Fetch(req) && req.url@ == blob_url(name, s.layers@[i]@) && carries_token(
        req,
        s.token@,
    )
}

/// Whether the session waits for an event of this kind in its phase.
pub open spec fn awaited(s: Session, e: Event) -> bool {
    match s.phase {
        Phase::PreparingRoot | Phase::InstallingBinary | Phase::ChangingRoot
        | Phase::SettingWorkingDir | Phase::IsolatingPids => e is Completed,
        Phase::Authenticating => e is Token && s.image is Some,
        Phase::ResolvingDigest => e is ManifestList && s.image is Some,
        Phase::ListingLayers => e is LayerList && s.image is Some,
        Phase::FetchingLayer => e is Blob && s.image is Some && s.next < s.layers.len(),
        Phase::Unpacking => e is Completed && s.image is Some && s.next < s.layers.len(),
        Phase::Running => e is Exited,
        Phase::Finished => false,
    }
}

/// The request asks for the manifest list of the image, with the token.
pub open spec fn requests_manifest_list(r: Action, img: ImageReference, token: Seq<char>) -> bool {
    match r {
        Action::Fetch(req) => req.url@ == manifest_url(img.name@, img.tag@) && carries_token(
            req,
            token,
        ) && accepts(req, manifest_list_media_type()),
        _ => false,
    }
}

/// The request asks for the image manifest named by `digest`, with the token.
pub open spec fn requests_image_manifest(
    r: Action,
    img: ImageReference,
    digest: Seq<char>,
    token: Seq<char>,
) -> bool {
    match r {
        Action::Fetch(req) => req.url@ == manifest_url(img.name@, digest) && carries_token(
            req,
            token,
        ) && accepts(req, image_manifest_media_type()),
        _ => false,
    }
}

/// The request asks anonymously for a pull token for the image.
pub open spec fn requests_token(r: Action, img: ImageReference) -> bool {
    match r {
        Action::Fetch(req) => req.url@ == token_url(img.name@) && req.bearer is None
            && req.accept is None,
        _ => false,
    }
}

/// The step from `o` on an awaited event `e` leads to `n` with action `r`.
pub open spec fn transition(o: Session, e: Event, n: Session, r: Action) -> bool {
    match o.phase {
        Phase::PreparingRoot => match o.image {
            Some(img) => requests_token(r, img) && n.phase == Phase::Authenticating,
            None => installs_binary(r, o) && n.phase == Phase::InstallingBinary,
        },
        Phase::Authenticating => match (e, o.image) {
            (Event::Token(t), Some(img)) => requests_manifest_list(r, img, t@) && n.token@ == t@
                && n.phase == Phase::ResolvingDigest,
            _ => false,
        },
        Phase::ResolvingDigest => match (e, o.image) {
            (Event::ManifestList(entries), Some(img)) => match resolution(entries@, o.arch@) {
                Err(err) => r == Action::Abort(RunError::Manifest(err)) && n.phase
                    == Phase::Finished,
                Ok(d) => requests_image_manifest(r, img, d, o.token@) && n.token == o.token
                    && n.phase == Phase::ListingLayers,
            },
            _ => false,
        },
        Phase::ListingLayers => match (e, o.image) {
            (Event::LayerList(ls), Some(img)) => n.layers == ls && n.token == o.token && if ls.len()
                == 0 {
                installs_binary(r, o) && n.phase == Phase::InstallingBinary
            } else {
                fetches_layer(r, n, img.name@, 0) && n.next == 0 && n.phase == Phase::FetchingLayer
            },
            _ => false,
        },
        Phase::FetchingLayer => match e {
            Event::Blob(b) => match blob_verdict(b@) {
                Err(err) => r == Action::Abort(RunError::Layer(err)) && n.phase == Phase::Finished,
                Ok(archive) => match r {
                    Action::Unpack(x) => x@ == archive && n.phase == Phase::Unpacking && n.next
                        == o.next && n.layers == o.layers && n.token == o.token,
                    _ => false,
                },
            },
            _ => false,
        },
        Phase::Unpacking => match o.image {
            Some(img) => if o.next + 1 < o.layers.len() {
                fetches_layer(r, o, img.name@, o.next + 1) && n.next == o.next + 1 && n.phase
                    == Phase::FetchingLayer && n.layers == o.layers && n.token == o.token
            } else {
                installs_binary(r, o) && n.phase == Phase::InstallingBinary
            },
            None => false,
        },
        Phase::InstallingBinary => r == Action::ChangeRoot && n.phase == Phase::ChangingRoot,
        Phase::ChangingRoot => r == Action::SetWorkingDir && n.phase == Phase::SettingWorkingDir,
        Phase::SettingWorkingDir => r == Action::IsolatePids && n.phase == Phase::IsolatingPids,
        Phase::IsolatingPids => n.phase == Phase::Running && match r {
            Action::Spawn { program, args } => program@ == seq!['/'] + o.binary@ && args@
                == o.args@,
            _ => false,
        },
        Phase::Running => n.phase == Phase::Finished && match e {
            Event::Exited { code: Some(c), stdout, stderr } => r == Action::Exit {
                stdout,
                stderr,
                code: c,
            },
            Event::Exited { code: None, .. } => r == Action::Abort(RunError::ExitCodeUnavailable),
            _ => false,
        },
        Phase::Finished => false,
    }
}

impl Session {
    /// Sets up a run of `command` with `args`, on the root assembled from
    /// `image` for `arch` (or on an empty root without one), and gives the
    /// first action. A command path with no file name at its end stops the run.
    pub fn start(image: Option<ImageReference>, command: String, args: Vec<String>, arch: String) -> (r: (Session, Action))
        ensures
            r.0.image == image,
            r.0.command == command,
            r.0.args == args,
            r.0.arch == arch,
            r.0.layers@.len() == 0,
            is_file_name(final_component(command@)) ==> r.0.binary@ == final_component(command@)
                && r.0.phase == Phase::PreparingRoot && r.1 is PrepareRoot,
            !is_file_name(final_component(command@)) ==> r.0.phase == Phase::Finished && r.1
                == Action::Abort(RunError::Filesystem),
    {
        let name = binary_name(command.as_str());
        match name {
            Some(binary) => {
                let s = Session {
                    image,
                    command,
                    args,
                    arch,
                    binary,
                    token: String::new(),
                    layers: Vec::new(),
                    next: 0,
                    phase: Phase::PreparingRoot,
                };
                (s, Action::PrepareRoot)
            },
            None => {
                let s = Session {
                    image,
                    command,
                    args,
                    arch,
                    binary: String::new(),
                    token: String::new(),
                    layers: Vec::new(),
                    next: 0,
                    phase: Phase::Finished,
                };
                (s, Action::Abort(RunError::Filesystem))
            },
        }
    }

    fn install_binary(&self) -> (r: Action)
        ensures
            installs_binary(r, *self),
    {
        Action::InstallBinary { source: self.command.clone(), name: self.binary.clone() }
    }

    fn abort(&mut self, e: RunError) -> (r: Action)
        ensures
            r == Action::Abort(e),
            final(self).phase == Phase::Finished,
            same_setup(*old(self), *final(self)),
    {
        self.phase = Phase::Finished;
        Action::Abort(e)
    }

    /// Takes the driver's report on the last action and gives the next one.
    #[verifier::rlimit(50)]
    pub fn step(&mut self, event: Event) -> (r: Action)
        ensures
            same_setup(*old(self), *final(self)),
            !awaited(*old(self), event) ==> final(self).phase == Phase::Finished && r
                == Action::Abort(
                if event is Failed {
                    failure_of(old(self).phase)
                } else {
                    RunError::OutOfOrder
                },
            ),
            awaited(*old(self), event) ==> transition(*old(self), event, *final(self), r),
    {
        if let Event::Failed = event {
            let e = failure_kind(self.phase);
            return self.abort(e);
        }
        match self.phase {
            Phase::PreparingRoot => {
                if let Event::Completed = event {
                    match &self.image {
                        Some(img) => {
                            let req = token_request(img.name.as_str());
                            self.phase = Phase::Authenticating;
                            Action::Fetch(req)
                        },
                        None => {
                            let a = self.install_binary();
                            self.phase = Phase::InstallingBinary;
                            a
                        },
                    }
                } else {
                    self.abort(RunError::OutOfOrder)
                }
            },
            Phase::Authenticating => {
                if let Event::Token(t) = event {
                    if let Some(img) = &self.image {
                        let req = manifest_list_request(
                            img.name.as_str(),
                            img.tag.as_str(),
                            t.as_str(),
                        );
                        self.token = t;
                        self.phase = Phase::ResolvingDigest;
                        return Action::Fetch(req);
                    }
                }
                self.abort(RunError::OutOfOrder)
            },
            Phase::ResolvingDigest => {
                if let Event::ManifestList(entries) = event {
                    if let Some(img) = &self.image {
                        return match select_digest(&entries, self.arch.as_str()) {
                            Err(e) => self.abort(RunError::Manifest(e)),
                            Ok(d) => {
                                let req = image_manifest_request(
                                    img.name.as_str(),
                                    d.as_str(),
                                    self.token.as_str(),
                                );
                                self.phase = Phase::ListingLayers;
                                Action::Fetch(req)
                            },
                        };
                    }
                }
                self.abort(RunError::OutOfOrder)
            },
            Phase::ListingLayers => {
                if let Event::LayerList(ls) = event {
                    if let Some(img) = &self.image {
                        if ls.len() == 0 {
                            let a = self.install_binary();
                            self.layers = ls;
                            self.phase = Phase::InstallingBinary;
                            return a;
                        }
                        let req = blob_request(
                            img.name.as_str(),
                            ls[0].as_str(),
                            self.token.as_str(),
                        );
                        self.layers = ls;
                        self.next = 0;
                        self.phase = Phase::FetchingLayer;
                        return Action::Fetch(req);
                    }
                }
                self.abort(RunError::OutOfOrder)
            },
            Phase::FetchingLayer => {
                if let Event::Blob(b) = event {
                    if self.image.is_some() && self.next < self.layers.len() {
                        return match decode_layer(&b) {
                            Err(e) => self.abort(RunError::Layer(e)),
                            Ok(a) => {
                                self.phase = Phase::Unpacking;
                                Action::Unpack(a)
                            },
                        };
                    }
                }
                self.abort(RunError::OutOfOrder)
            },
            Phase::Unpacking => {
                if let Event::Completed = event {
                    if let Some(img) = &self.image {
                        if self.next < self.layers.len() {
                            if self.next + 1 < self.layers.len() {
                                let req = blob_request(
                                    img.name.as_str(),
                                    self.layers[self.next + 1].as_str(),
                                    self.token.as_str(),
                                );
                                self.next = self.next + 1;
                                self.phase = Phase::FetchingLayer;
                                return Action::Fetch(req);
                            } else {
                                let a = self.install_binary();
                                self.phase = Phase::InstallingBinary;
                                return a;
                            }
                        }
                    }
                }
                self.abort(RunError::OutOfOrder)
            },
            Phase::InstallingBinary => {
                if let Event::Completed = event {
                    self.phase = Phase::ChangingRoot;
                    Action::ChangeRoot
                } else {
                    self.abort(RunError::OutOfOrder)
                }
            },
            Phase::ChangingRoot => {
                if let Event::Completed = event {
                    self.phase = Phase::SettingWorkingDir;
                    Action::SetWorkingDir
                } else {
                    self.abort(RunError::OutOfOrder)
                }
            },
            Phase::SettingWorkingDir => {
                if let Event::Completed = event {
                    self.phase = Phase::IsolatingPids;
                    Action::IsolatePids
                } else {
                    self.abort(RunError::OutOfOrder)
                }
            },
            Phase::IsolatingPids => {
                if let Event::Completed = event {
                    let program = String::from_str("/").concat(self.binary.as_str());
                    let args = self.args.clone();
                    proof {
                        reveal_strlit("/");
                        assert("/"@ =~= seq!['/']);
                        assert(args@ =~= self.args@);
                    }
                    self.phase = Phase::Running;
                    Action::Spawn { program, args }
                } else {
                    self.abort(RunError::OutOfOrder)
                }
            },
            Phase::Running => {
                if let Event::Exited { code, stdout, stderr } = event {
                    self.phase = Phase::Finished;
                    match code {
                        Some(c) => Action::Exit { stdout, stderr, code: c },
                        None => Action::Abort(RunError::ExitCodeUnavailable),
                    }
                } else {
                    self.abort(RunError::OutOfOrder)
                }
            },
            Phase::Finished => self.abort(RunError::OutOfOrder),
        }
    }
} // impl Session

/// Layers go onto the staging directory one at a time, in list order: once the
/// layer at `next` is unpacked, the one fetched is the layer at `next + 1`, and
/// the executable is installed only after the last.
pub proof fn lemma_layers_follow_list_order(o: Session, e: Event, n: Session, r: Action)
    requires
        o.phase == Phase::Unpacking,
        awaited(o, e),
        transition(o, e, n, r),
    ensures
        o.next + 1 < o.layers.len() ==> n.phase == Phase::FetchingLayer && n.next == o.next + 1
            && n.layers == o.layers && fetches_layer(r, o, o.image->Some_0.name@, o.next + 1),
        o.next + 1 >= o.layers.len() ==> n.phase == Phase::InstallingBinary && installs_binary(
            r,
            o,
        ),
{
}

/// A fetched layer is unpacked as the layer it was fetched for: the position
/// in the list does not move until it is on disk.
pub proof fn lemma_blob_unpacked_in_place(o: Session, b: Vec<u8>, n: Session, r: Action)
    requires
        o.phase == Phase::FetchingLayer,
        awaited(o, Event::Blob(b)),
        transition(o, Event::Blob(b), n, r),
        blob_verdict(b@) is Ok,
    ensures
        n.phase == Phase::Unpacking,
        n.next == o.next,
        n.layers == o.layers,
{
}

/// A command that exits with a code has that code for the run's own exit, and
/// its captured output and error bytes are relayed unchanged.
pub proof fn lemma_exit_relays_child(
    o: Session,
    code: i32,
    stdout: Vec<u8>,
    stderr: Vec<u8>,
    n: Session,
    r: Action,
)
    requires
        o.phase == Phase::Running,
        transition(o, Event::Exited { code: Some(code), stdout, stderr }, n, r),
    ensures
        r == (Action::Exit { stdout, stderr, code }),
        n.phase == Phase::Finished,
{
}

/// Where no entry of the manifest list names the run's architecture, the run
/// stops with a manifest error, fetching no layer, and every later event is
/// refused.
pub proof fn lemma_absent_architecture_stops_run(
    o: Session,
    entries: Vec<ManifestEntry>,
    n: Session,
    r: Action,
    later: Event,
)
    requires
        o.phase == Phase::ResolvingDigest,
        o.image is Some,
        forall|j: int| 0 <= j < entries@.len() ==> entries@[j].architecture@ != o.arch@,
        transition(o, Event::ManifestList(entries), n, r),
    ensures
        r == Action::Abort(RunError::Manifest(ManifestError::NoMatchingArchitecture)),
        n.phase == Phase::Finished,
        !awaited(n, later),
{
    lemma_absent_architecture_fails(entries@, o.arch@);
}

} // verus!
