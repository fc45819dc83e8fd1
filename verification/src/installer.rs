//! Installing and reinstalling a package, one decision at a time.
//!
//! An [`Installation`] never acts. It says what it needs next
//! ([`Installation::request`]); whoever drives it does that work and hands
//! back what came of it ([`Installation::advance`]). The steps are:
//!
//! 1. find out whether the package is there already;
//! 2. make sure the directory of installed binaries exists;
//! 3. clear the package's directory if it exists, then clone the repository
//!    into it;
//! 4. build a release binary;
//! 5. copy the binary to the installed binaries.
//!
//! Installing stops at step 1 when the package is there already; installing
//! again only remarks on its absence. A clone that fails ends everything.
//! Any other failure is reported and the steps go on.

use crate::layout::{
    built_binary, deployed_binary, install_dir, manifest_path, packages_root,
    spec_built_binary, spec_deployed_binary, spec_install_dir, spec_manifest_path,
    spec_packages_root, spec_staging_dir, spec_tool_dir, staging_dir, tool_dir,
};
use crate::names::{given, is_among, name_or_empty};
use crate::notice::{notices_view, Notice, NoticeView};
use crate::registry::{lemma_lookup_inverts_name, lookup, spec_lookup, Package};
use vstd::prelude::*;
use vstd::string::StringExecFns;

verus! {

/// Whether a package is installed for the first time or once more.
#[derive(Clone, Copy, Debug, PartialEq, Eq, Structural)]
pub enum Mode {
    Install,
    Reinstall,
}

/// Why no installation was begun.
#[derive(Clone, Debug, PartialEq, Eq)]
pub enum InstallError {
    /// No package was named, or the name was empty.
    MissingPackage(Mode),
    /// The name is not that of a known package.
    UnknownPackage(String),
}

/// The mathematical content of [`InstallError`].
pub enum InstallErrorView {
    MissingPackage(Mode),
    UnknownPackage(Seq<char>),
}

impl View for InstallError {
    type V = InstallErrorView;

    open spec fn view(&self) -> InstallErrorView {
        match self {
            InstallError::MissingPackage(mode) => InstallErrorView::MissingPackage(*mode),
            InstallError::UnknownPackage(name) => InstallErrorView::UnknownPackage(name@),
        }
    }
}

impl InstallErrorView {
    /// The wording of the error.
    pub open spec fn message(self) -> Seq<char> {
        match self {
            InstallErrorView::MissingPackage(Mode::Install) =>
                "Error: Please provide a package to install!"@,
            InstallErrorView::MissingPackage(Mode::Reinstall) =>
                "Error: Please provide a package to reinstall!"@,
            InstallErrorView::UnknownPackage(name) => "Error: Package `"@ + name
                + "` not found!"@,
        }
    }
}

impl InstallError {
    /// The wording of the error.
    pub fn message(&self) -> (text: String)
        ensures
            text@ == self@.message(),
    {
        match self {
            InstallError::MissingPackage(Mode::Install) => String::from_str(
                "Error: Please provide a package to install!",
            ),
            InstallError::MissingPackage(Mode::Reinstall) => String::from_str(
                "Error: Please provide a package to reinstall!",
            ),
            InstallError::UnknownPackage(name) => String::from_str("Error: Package `").concat(
                name.as_str(),
            ).concat("` not found!"),
        }
    }

    /// The status with which the process ends on this error.
    pub fn exit_code(&self) -> (code: i32)
        ensures
            code == 1,
    {
        1
    }
}

/// How far an installation has come: what it is waiting to hear about.
#[derive(Clone, Copy, Debug, PartialEq, Eq, Structural)]
pub enum Phase {
    /// Whether the package is there already.
    Checking,
    /// The creation of the directory of installed binaries.
    Preparing,
    /// Whether the package's directory exists.
    Probing,
    /// The removal of the package's directory.
    Clearing,
    /// The clone of the repository.
    Fetching,
    /// The build.
    Building,
    /// The copy of the binary.
    Deploying,
    /// Nothing: all steps were taken.
    Finished,
    /// Nothing: the package was installed already.
    Refused,
    /// Nothing: the repository could not be cloned.
    Aborted,
}

/// An installation under way.
#[derive(Clone, Debug, PartialEq, Eq)]
pub struct Installation {
    pub mode: Mode,
    pub package: Package,
    /// The user's home directory.
    pub home: String,
    pub phase: Phase,
}

/// The mathematical content of [`Installation`].
pub struct InstallationView {
    pub mode: Mode,
    pub package: Package,
    pub home: Seq<char>,
    pub phase: Phase,
}

impl View for Installation {
    type V = InstallationView;

    open spec fn view(&self) -> InstallationView {
        InstallationView {
            mode: self.mode,
            package: self.package,
            home: self.home@,
            phase: self.phase,
        }
    }
}

/// Work that an installation asks its driver to do.
#[derive(Clone, Debug, PartialEq, Eq)]
pub enum Request {
    /// List the names of the entries of a directory.
    ListDirectory { path: String },
    /// Tell whether a path exists.
    PathExists { path: String },
    /// Create a directory and its missing parents.
    CreateDirectory { path: String },
    /// Remove a directory and all it holds.
    RemoveDirectory { path: String },
    /// Clone the repository at `url` into the directory `into`.
    CloneRepository { url: String, into: String },
    /// Run a program and wait for it.
    Run { program: String, arguments: Vec<String> },
    /// Copy a file.
    CopyFile { from: String, to: String },
    /// End the process with a status.
    Exit { code: i32 },
    /// End the process as one that cannot go on.
    Abort,
}

/// The mathematical content of [`Request`].
pub enum RequestView {
    ListDirectory { path: Seq<char> },
    PathExists { path: Seq<char> },
    CreateDirectory { path: Seq<char> },
    RemoveDirectory { path: Seq<char> },
    CloneRepository { url: Seq<char>, into: Seq<char> },
    Run { program: Seq<char>, arguments: Seq<Seq<char>> },
    CopyFile { from: Seq<char>, to: Seq<char> },
    Exit { code: i32 },
    Abort,
}

impl View for Request {
    type V = RequestView;

    open spec fn view(&self) -> RequestView {
        match self {
            Request::ListDirectory { path } => RequestView::ListDirectory { path: path@ },
            Request::PathExists { path } => RequestView::PathExists { path: path@ },
            Request::CreateDirectory { path } => RequestView::CreateDirectory { path: path@ },
            Request::RemoveDirectory { path } => RequestView::RemoveDirectory { path: path@ },
            Request::CloneRepository { url, into } => RequestView::CloneRepository {
                url: url@,
                into: into@,
            },
            Request::Run { program, arguments } => RequestView::Run {
                program: program@,
                arguments: arguments.deep_view(),
            },
            Request::CopyFile { from, to } => RequestView::CopyFile { from: from@, to: to@ },
            Request::Exit { code } => RequestView::Exit { code: *code },
            Request::Abort => RequestView::Abort,
        }
    }
}

/// What came of a request.
#[derive(Clone, Debug, PartialEq, Eq)]
pub enum Response {
    /// The names of the entries of the directory that was listed.
    Entries(Vec<String>),
    /// Whether the path exists.
    Exists(bool),
    /// The work was done.
    Success,
    /// The work could not be done; the text says why.
    Failure(String),
}

/// The mathematical content of [`Response`].
pub enum ResponseView {
    Entries(Seq<Seq<char>>),
    Exists(bool),
    Success,
    Failure(Seq<char>),
}

impl View for Response {
    type V = ResponseView;

    open spec fn view(&self) -> ResponseView {
        match self {
            Response::Entries(names) => ResponseView::Entries(names.deep_view()),
            Response::Exists(exists) => ResponseView::Exists(*exists),
            Response::Success => ResponseView::Success,
            Response::Failure(why) => ResponseView::Failure(why@),
        }
    }
}

/// An installation after a response, and what to tell the user about it.
#[derive(Clone, Debug, PartialEq, Eq)]
pub struct Progress {
    pub state: Installation,
    pub notices: Vec<Notice>,
}

/// The mathematical content of [`Progress`].
pub struct ProgressView {
    pub state: InstallationView,
    pub notices: Seq<NoticeView>,
}

impl View for Progress {
    type V = ProgressView;

    open spec fn view(&self) -> ProgressView {
        ProgressView { state: self.state@, notices: notices_view(self.notices@) }
    }
}

/// The content of what beginning an installation gives.
pub open spec fn begun(result: Result<Installation, InstallError>) -> Result<
    InstallationView,
    InstallErrorView,
> {
    match result {
        Ok(state) => Ok(state@),
        Err(error) => Err(error@),
    }
}

/// How an installation of the package called `name` begins: with its first
/// phase if `name` is that of a known package, with an error otherwise.
pub open spec fn spec_begin(mode: Mode, name: Seq<char>, home: Seq<char>) -> Result<
    InstallationView,
    InstallErrorView,
> {
    if name.len() == 0 {
        Err(InstallErrorView::MissingPackage(mode))
    } else {
        match spec_lookup(name) {
            Some(package) => Ok(InstallationView { mode, package, home, phase: Phase::Checking }),
            None => Err(InstallErrorView::UnknownPackage(name)),
        }
    }
}

/// The command that builds a package.
pub open spec fn spec_build_arguments(home: Seq<char>, package: Package) -> Seq<Seq<char>> {
    seq!["build"@, "--release"@, "--manifest-path="@ + spec_manifest_path(home, package)]
}

/// What an installation needs next.
pub open spec fn spec_request(s: InstallationView) -> RequestView {
    match s.phase {
        Phase::Checking => match s.mode {
            Mode::Install => RequestView::ListDirectory { path: spec_packages_root(s.home) },
            Mode::Reinstall => RequestView::PathExists {
                path: spec_install_dir(s.home, s.package),
            },
        },
        Phase::Preparing => RequestView::CreateDirectory { path: spec_tool_dir(s.home) },
        Phase::Probing => RequestView::PathExists { path: spec_install_dir(s.home, s.package) },
        Phase::Clearing => RequestView::RemoveDirectory {
            path: spec_install_dir(s.home, s.package),
        },
        Phase::Fetching => RequestView::CloneRepository {
            url: s.package.spec_repository(),
            into: spec_install_dir(s.home, s.package),
        },
        Phase::Building => RequestView::Run {
            program: "cargo"@,
            arguments: spec_build_arguments(s.home, s.package),
        },
        Phase::Deploying => RequestView::CopyFile {
            from: spec_built_binary(s.home, s.package),
            to: spec_deployed_binary(s.home, s.package),
        },
        Phase::Finished => RequestView::Exit { code: 0 },
        Phase::Refused => RequestView::Exit { code: 1 },
        Phase::Aborted => RequestView::Abort,
    }
}

/// The installation `s` in another phase, with something to say.
pub open spec fn moved(s: InstallationView, phase: Phase, notices: Seq<NoticeView>)
    -> ProgressView {
    ProgressView { state: InstallationView { phase, ..s }, notices }
}

/// The installation `s` as it is, with nothing to say.
pub open spec fn unmoved(s: InstallationView) -> ProgressView {
    ProgressView { state: s, notices: Seq::empty() }
}

/// `notices`, after the failure's own words if `r` is a failure.
pub open spec fn after_failure(r: ResponseView, notices: Seq<NoticeView>) -> Seq<NoticeView> {
    match r {
        ResponseView::Failure(why) => seq![NoticeView::Failure(why)] + notices,
        _ => notices,
    }
}

/// What is said when the clone is about to begin.
pub open spec fn opening(package: Package) -> Seq<NoticeView> {
    seq![NoticeView::Trusting(package), NoticeView::Fetching(package)]
}

/// What is said when all steps were taken.
pub open spec fn closing(s: InstallationView) -> Seq<NoticeView> {
    seq![
        NoticeView::Done,
        NoticeView::ActivateHint(s.package),
        NoticeView::PathNote(s.package),
        NoticeView::ExportHint(spec_staging_dir(s.home)),
    ]
}

/// Whether `r` tells how a piece of work ended.
pub open spec fn is_outcome(r: ResponseView) -> bool {
    r is Success || r is Failure
}

/// What becomes of the installation `s` when its request is answered by `r`.
///
/// A response that does not answer the request leaves `s` as it is.
pub open spec fn step(s: InstallationView, r: ResponseView) -> ProgressView {
    match s.phase {
        Phase::Checking => match (s.mode, r) {
            (Mode::Install, ResponseView::Entries(names)) => if names.contains(
                s.package.spec_name(),
            ) {
                moved(
                    s,
                    Phase::Refused,
                    seq![
                        NoticeView::AlreadyInstalled(s.package),
                        NoticeView::ReinstallHint(s.package),
                    ],
                )
            } else {
                moved(s, Phase::Preparing, Seq::empty())
            },
            (Mode::Install, ResponseView::Failure(why)) => moved(
                s,
                Phase::Preparing,
                seq![NoticeView::Failure(why)],
            ),
            (Mode::Reinstall, ResponseView::Exists(true)) => moved(
                s,
                Phase::Preparing,
                Seq::empty(),
            ),
            (Mode::Reinstall, ResponseView::Exists(false)) => moved(
                s,
                Phase::Preparing,
                seq![NoticeView::NotInstalled(s.package), NoticeView::InstallHint(s.package)],
            ),
            _ => unmoved(s),
        },
        Phase::Preparing => if is_outcome(r) {
            moved(s, Phase::Probing, after_failure(r, opening(s.package)))
        } else {
            unmoved(s)
        },
        Phase::Probing => match r {
            ResponseView::Exists(true) => moved(s, Phase::Clearing, Seq::empty()),
            ResponseView::Exists(false) => moved(s, Phase::Fetching, Seq::empty()),
            _ => unmoved(s),
        },
        Phase::Clearing => if is_outcome(r) {
            moved(s, Phase::Fetching, after_failure(r, Seq::empty()))
        } else {
            unmoved(s)
        },
        Phase::Fetching => match r {
            ResponseView::Success => moved(s, Phase::Building, Seq::empty()),
            ResponseView::Failure(why) => moved(
                s,
                Phase::Aborted,
                seq![NoticeView::CloneFailed(why)],
            ),
            _ => unmoved(s),
        },
        Phase::Building => match r {
            ResponseView::Success => moved(s, Phase::Deploying, seq![NoticeView::Copying]),
            ResponseView::Failure(why) => moved(
                s,
                Phase::Deploying,
                seq![NoticeView::BuildFailed(why), NoticeView::Copying],
            ),
            _ => unmoved(s),
        },
        Phase::Deploying => if is_outcome(r) {
            moved(s, Phase::Finished, after_failure(r, closing(s)))
        } else {
            unmoved(s)
        },
        Phase::Finished => unmoved(s),
        Phase::Refused => unmoved(s),
        Phase::Aborted => unmoved(s),
    }
}

/// The installation `s` after each of `responses` was taken in turn.
pub open spec fn run(s: InstallationView, responses: Seq<ResponseView>) -> InstallationView
    decreases responses.len(),
{
    if responses.len() == 0 {
        s
    } else {
        step(run(s, responses.drop_last()), responses.last()).state
    }
}

/// Whether the installation asks for nothing more.
pub open spec fn is_over(s: InstallationView) -> bool {
    s.phase == Phase::Finished || s.phase == Phase::Refused || s.phase == Phase::Aborted
}

/// Begins an installation in the given mode.
fn begin(mode: Mode, pkg: Option<&String>, home: &str) -> (result: Result<
    Installation,
    InstallError,
>)
    ensures
        begun(result) == spec_begin(mode, given(pkg), home@),
{
    let name = name_or_empty(pkg);
    if name.as_str().is_empty() {
        return Err(InstallError::MissingPackage(mode));
    }
    match lookup(name.as_str()) {
        Some(package) => Ok(
            Installation { mode, package, home: String::from_str(home), phase: Phase::Checking },
        ),
        None => Err(InstallError::UnknownPackage(name)),
    }
}

/// Begins the installation of the package called `pkg` for the user whose
/// home directory is `home`.
///
/// Fails, before anything is asked for, if no name or an empty one is given
/// or if the name is not that of a known package.
pub fn install(pkg: Option<&String>, home: &str) -> (result: Result<Installation, InstallError>)
    ensures
        begun(result) == spec_begin(Mode::Install, given(pkg), home@),
{
    begin(Mode::Install, pkg, home)
}

/// Begins another installation of the package called `pkg` for the user
/// whose home directory is `home`.
///
/// Fails as [`install`] does.
pub fn reinstall(pkg: Option<&String>, home: &str) -> (result: Result<
    Installation,
    InstallError,
>)
    ensures
        begun(result) == spec_begin(Mode::Reinstall, given(pkg), home@),
{
    begin(Mode::Reinstall, pkg, home)
}

impl Installation {
    /// Whether the installation has come to an end.
    pub fn is_over(&self) -> (over: bool)
        ensures
            over == is_over(self@),
    {
        match self.phase {
            Phase::Finished => true,
            Phase::Refused => true,
            Phase::Aborted => true,
            _ => false,
        }
    }

    /// What the installation needs next.
    pub fn request(&self) -> (request: Request)
        ensures
            request@ == spec_request(self@),
    {
        let home = self.home.as_str();
        match self.phase {
            Phase::Checking => match self.mode {
                Mode::Install => Request::ListDirectory { path: packages_root(home) },
                Mode::Reinstall => Request::PathExists { path: install_dir(home, self.package) },
            },
            Phase::Preparing => Request::CreateDirectory { path: tool_dir(home) },
            Phase::Probing => Request::PathExists { path: install_dir(home, self.package) },
            Phase::Clearing => Request::RemoveDirectory { path: install_dir(home, self.package) },
            Phase::Fetching => Request::CloneRepository {
                url: String::from_str(self.package.repository()),
                into: install_dir(home, self.package),
            },
            Phase::Building => {
                let manifest = manifest_path(home, self.package);
                let mut arguments: Vec<String> = Vec::new();
                arguments.push(String::from_str("build"));
                arguments.push(String::from_str("--release"));
                arguments.push(String::from_str("--manifest-path=").concat(manifest.as_str()));
                assert(arguments.deep_view() =~= spec_build_arguments(self.home@, self.package));
                Request::Run { program: String::from_str("cargo"), arguments }
            },
            Phase::Deploying => Request::CopyFile {
                from: built_binary(home, self.package),
                to: deployed_binary(home, self.package),
            },
            Phase::Finished => Request::Exit { code: 0 },
            Phase::Refused => Request::Exit { code: 1 },
            Phase::Aborted => Request::Abort,
        }
    }

    /// The installation in another phase.
    fn moved_to(self, phase: Phase, notices: Vec<Notice>) -> (progress: Progress)
        ensures
            progress@ == moved(self@, phase, notices_view(notices@)),
    {
        Progress {
            state: Installation {
                mode: self.mode,
                package: self.package,
                home: self.home,
                phase,
            },
            notices,
        }
    }

    /// The installation as it is.
    fn unmoved(self) -> (progress: Progress)
        ensures
            progress@ == unmoved(self@),
    {
        let notices: Vec<Notice> = Vec::new();
        assert(notices_view(notices@) =~= Seq::empty());
        Progress { state: self, notices }
    }

    /// Takes the response to the pending request and moves on.
    ///
    /// A response that does not answer the request changes nothing.
    pub fn advance(self, response: Response) -> (progress: Progress)
        ensures
            progress@ == step(self@, response@),
    {
        let ghost s = self@;
        let ghost r = response@;
        let package = self.package;
        let mut notices: Vec<Notice> = Vec::new();
        assert(notices_view(notices@) =~= Seq::empty());
        match self.phase {
            Phase::Checking => match (self.mode, response) {
                (Mode::Install, Response::Entries(names)) => {
                    if is_among(&names, package.name()) {
                        notices.push(Notice::AlreadyInstalled(package));
                        notices.push(Notice::ReinstallHint(package));
                        assert(notices_view(notices@) =~= seq![
                            NoticeView::AlreadyInstalled(package),
                            NoticeView::ReinstallHint(package),
                        ]);
                        self.moved_to(Phase::Refused, notices)
                    } else {
                        self.moved_to(Phase::Preparing, notices)
                    }
                },
                (Mode::Install, Response::Failure(why)) => {
                    notices.push(Notice::Failure(why));
                    assert(notices_view(notices@) =~= seq![NoticeView::Failure(why@)]);
                    self.moved_to(Phase::Preparing, notices)
                },
                (Mode::Reinstall, Response::Exists(true)) => self.moved_to(
                    Phase::Preparing,
                    notices,
                ),
                (Mode::Reinstall, Response::Exists(false)) => {
                    notices.push(Notice::NotInstalled(package));
                    notices.push(Notice::InstallHint(package));
                    assert(notices_view(notices@) =~= seq![
                        NoticeView::NotInstalled(package),
                        NoticeView::InstallHint(package),
                    ]);
                    self.moved_to(Phase::Preparing, notices)
                },
                _ => self.unmoved(),
            },
            Phase::Preparing => match response {
                Response::Success => {
                    notices.push(Notice::Trusting(package));
                    notices.push(Notice::Fetching(package));
                    assert(notices_view(notices@) =~= opening(package));
                    self.moved_to(Phase::Probing, notices)
                },
                Response::Failure(why) => {
                    notices.push(Notice::Failure(why));
                    notices.push(Notice::Trusting(package));
                    notices.push(Notice::Fetching(package));
                    assert(notices_view(notices@) =~= after_failure(r, opening(package)));
                    self.moved_to(Phase::Probing, notices)
                },
                _ => self.unmoved(),
            },
            Phase::Probing => match response {
                Response::Exists(true) => self.moved_to(Phase::Clearing, notices),
                Response::Exists(false) => self.moved_to(Phase::Fetching, notices),
                _ => self.unmoved(),
            },
            Phase::Clearing => match response {
                Response::Success => self.moved_to(Phase::Fetching, notices),
                Response::Failure(why) => {
                    notices.push(Notice::Failure(why));
                    assert(notices_view(notices@) =~= after_failure(r, Seq::empty()));
                    self.moved_to(Phase::Fetching, notices)
                },
                _ => self.unmoved(),
            },
            Phase::Fetching => match response {
                Response::Success => self.moved_to(Phase::Building, notices),
                Response::Failure(why) => {
                    notices.push(Notice::CloneFailed(why));
                    assert(notices_view(notices@) =~= seq![NoticeView::CloneFailed(why@)]);
                    self.moved_to(Phase::Aborted, notices)
                },
                _ => self.unmoved(),
            },
            Phase::Building => match response {
                Response::Success => {
                    notices.push(Notice::Copying);
                    assert(notices_view(notices@) =~= seq![NoticeView::Copying]);
                    self.moved_to(Phase::Deploying, notices)
                },
                Response::Failure(why) => {
                    notices.push(Notice::BuildFailed(why));
                    notices.push(Notice::Copying);
                    assert(notices_view(notices@) =~= seq![
                        NoticeView::BuildFailed(why@),
                        NoticeView::Copying,
                    ]);
                    self.moved_to(Phase::Deploying, notices)
                },
                _ => self.unmoved(),
            },
            Phase::Deploying => {
                match response {
                    Response::Success => {},
                    Response::Failure(why) => {
                        notices.push(Notice::Failure(why));
                    },
                    _ => {
                        return self.unmoved();
                    },
                }
                notices.push(Notice::Done);
                notices.push(Notice::ActivateHint(package));
                notices.push(Notice::PathNote(package));
                notices.push(Notice::ExportHint(staging_dir(self.home.as_str())));
                assert(notices_view(notices@) =~= after_failure(r, closing(s)));
                self.moved_to(Phase::Finished, notices)
            },
            Phase::Finished => self.unmoved(),
            Phase::Refused => self.unmoved(),
            Phase::Aborted => self.unmoved(),
        }
    }
}

/// An installation begins exactly for the names of known packages. No name
/// and the empty name are reported as missing, every other name as unknown,
/// and the error carries the name as it was given.
pub proof fn lemma_begin_needs_known_package(mode: Mode, name: Seq<char>, home: Seq<char>)
    ensures
        spec_begin(mode, name, home) is Ok <==> spec_lookup(name) is Some,
        name.len() == 0 ==> spec_begin(mode, name, home) == Err::<
            InstallationView,
            InstallErrorView,
        >(InstallErrorView::MissingPackage(mode)),
        name.len() > 0 && spec_lookup(name) is None ==> spec_begin(mode, name, home) == Err::<
            InstallationView,
            InstallErrorView,
        >(InstallErrorView::UnknownPackage(name)),
{
    if spec_lookup(name) is Some {
        lemma_lookup_inverts_name(spec_lookup(name).unwrap(), name);
    }
}

/// An installation that is over stays as it is, whatever it is told.
pub proof fn lemma_over_is_final(s: InstallationView, responses: Seq<ResponseView>)
    requires
        is_over(s),
    ensures
        run(s, responses) == s,
    decreases responses.len(),
{
    if responses.len() > 0 {
        lemma_over_is_final(s, responses.drop_last());
    }
}

/// Only the clone has to succeed. Where an installation waits for a
/// directory to be made or removed, for the build or for the copy, a failure
/// leads to the same phase as success does; where it waits for the clone, a
/// failure aborts it.
pub proof fn lemma_only_a_failed_clone_stops(s: InstallationView, why: Seq<char>)
    ensures
        s.phase == Phase::Preparing || s.phase == Phase::Clearing || s.phase == Phase::Building
            || s.phase == Phase::Deploying ==> step(s, ResponseView::Failure(why)).state == step(
            s,
            ResponseView::Success,
        ).state && !is_over(s),
        s.phase == Phase::Fetching ==> step(s, ResponseView::Failure(why)).state.phase
            == Phase::Aborted,
        s.phase == Phase::Fetching ==> spec_request(step(s, ResponseView::Failure(why)).state)
            == RequestView::Abort,
{
}

/// Installing a package whose name is among the entries of the packages'
/// directory is refused: the installation asks to exit with status 1, and
/// whatever it is told afterwards, it asks for nothing else. The repository
/// is never cloned.
pub proof fn lemma_present_package_is_refused(
    s: InstallationView,
    names: Seq<Seq<char>>,
    later: Seq<ResponseView>,
)
    requires
        s.mode == Mode::Install,
        s.phase == Phase::Checking,
        names.contains(s.package.spec_name()),
    ensures
        step(s, ResponseView::Entries(names)).state.phase == Phase::Refused,
        spec_request(run(step(s, ResponseView::Entries(names)).state, later))
            == (RequestView::Exit { code: 1 }),
{
    lemma_over_is_final(step(s, ResponseView::Entries(names)).state, later);
}

/// Installing again never ends as refused, whatever the responses are.
proof fn lemma_reinstall_never_refused(s: InstallationView, responses: Seq<ResponseView>)
    requires
        s.mode == Mode::Reinstall,
        s.phase != Phase::Refused,
    ensures
        run(s, responses).mode == Mode::Reinstall,
        run(s, responses).phase != Phase::Refused,
    decreases responses.len(),
{
    if responses.len() > 0 {
        lemma_reinstall_never_refused(s, responses.drop_last());
    }
}

/// Installing a package again that is not installed goes on to the next
/// step with a remark on its absence, and no later response can make it end
/// as an installation of a present package ends.
pub proof fn lemma_reinstall_of_absent_package_proceeds(
    s: InstallationView,
    later: Seq<ResponseView>,
)
    requires
        s.mode == Mode::Reinstall,
        s.phase == Phase::Checking,
    ensures
        step(s, ResponseView::Exists(false)) == moved(
            s,
            Phase::Preparing,
            seq![NoticeView::NotInstalled(s.package), NoticeView::InstallHint(s.package)],
        ),
        spec_request(step(s, ResponseView::Exists(false)).state) == (RequestView::CreateDirectory {
            path: spec_tool_dir(s.home),
        }),
        run(step(s, ResponseView::Exists(false)).state, later).phase != Phase::Refused,
{
    lemma_reinstall_never_refused(step(s, ResponseView::Exists(false)).state, later);
}

} // verus!
