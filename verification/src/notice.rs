//! What the tool manager tells its user while a package is installed.
//!
//! A [`Notice`] says which line is due; [`Notice::text`] gives its wording and
//! [`Notice::is_error`] the stream it belongs to.

use crate::registry::Package;
use vstd::prelude::*;
use vstd::string::StringExecFns;

verus! {

/// One line of output.
#[derive(Clone, Debug, PartialEq, Eq)]
pub enum Notice {
    /// The package is installed already.
    AlreadyInstalled(Package),
    /// How to install a package again.
    ReinstallHint(Package),
    /// The package to install again was never installed.
    NotInstalled(Package),
    /// How to install a package for the first time.
    InstallHint(Package),
    /// The package's repository is taken on trust.
    Trusting(Package),
    /// The package's repository is about to be fetched.
    Fetching(Package),
    /// Some step failed without stopping the installation; the text is the
    /// failure's own.
    Failure(String),
    /// The repository could not be fetched.
    CloneFailed(String),
    /// The build could not be started.
    BuildFailed(String),
    /// The binary is about to be copied.
    Copying,
    /// The installation has run to its end.
    Done,
    /// How to activate the installed tool.
    ActivateHint(Package),
    /// Why the tool may still not be found.
    PathNote(Package),
    /// How to put the given directory on the search path.
    ExportHint(String),
}

/// The mathematical content of [`Notice`].
pub enum NoticeView {
    AlreadyInstalled(Package),
    ReinstallHint(Package),
    NotInstalled(Package),
    InstallHint(Package),
    Trusting(Package),
    Fetching(Package),
    Failure(Seq<char>),
    CloneFailed(Seq<char>),
    BuildFailed(Seq<char>),
    Copying,
    Done,
    ActivateHint(Package),
    PathNote(Package),
    ExportHint(Seq<char>),
}

impl View for Notice {
    type V = NoticeView;

    open spec fn view(&self) -> NoticeView {
        match self {
            Notice::AlreadyInstalled(p) => NoticeView::AlreadyInstalled(*p),
            Notice::ReinstallHint(p) => NoticeView::ReinstallHint(*p),
            Notice::NotInstalled(p) => NoticeView::NotInstalled(*p),
            Notice::InstallHint(p) => NoticeView::InstallHint(*p),
            Notice::Trusting(p) => NoticeView::Trusting(*p),
            Notice::Fetching(p) => NoticeView::Fetching(*p),
            Notice::Failure(why) => NoticeView::Failure(why@),
            Notice::CloneFailed(why) => NoticeView::CloneFailed(why@),
            Notice::BuildFailed(why) => NoticeView::BuildFailed(why@),
            Notice::Copying => NoticeView::Copying,
            Notice::Done => NoticeView::Done,
            Notice::ActivateHint(p) => NoticeView::ActivateHint(*p),
            Notice::PathNote(p) => NoticeView::PathNote(*p),
            Notice::ExportHint(dir) => NoticeView::ExportHint(dir@),
        }
    }
}

impl NoticeView {
    /// Whether the line reports something that went wrong.
    pub open spec fn is_error(self) -> bool {
        match self {
            NoticeView::AlreadyInstalled(_) => true,
            NoticeView::ReinstallHint(_) => true,
            NoticeView::NotInstalled(_) => true,
            NoticeView::InstallHint(_) => true,
            NoticeView::Failure(_) => true,
            NoticeView::CloneFailed(_) => true,
            NoticeView::BuildFailed(_) => true,
            _ => false,
        }
    }

    /// The wording of the line.
    pub open spec fn text(self) -> Seq<char> {
        match self {
            NoticeView::AlreadyInstalled(p) => "Package "@ + p.spec_name()
                + " is already installed!"@,
            NoticeView::ReinstallHint(p) => "Use `codeydog reinstall "@ + p.spec_name()
                + "` to reinstall it."@,
            NoticeView::NotInstalled(p) => "The package "@ + p.spec_name()
                + " is not installed!"@,
            NoticeView::InstallHint(p) => "Please use `codeydog install "@ + p.spec_name()
                + " to install it.`"@,
            NoticeView::Trusting(p) => "Trusting "@ + p.spec_repository() + " ..."@,
            NoticeView::Fetching(p) => "Fetching "@ + p.spec_repository() + " ..."@,
            NoticeView::Failure(why) => why,
            NoticeView::CloneFailed(why) => "Error: Failed to clone: "@ + why,
            NoticeView::BuildFailed(why) => "Error: "@ + why,
            NoticeView::Copying => "Copying binary to binaries directory..."@,
            NoticeView::Done => "Done!"@,
            NoticeView::ActivateHint(p) => "Use `codeydog activate "@ + p.spec_name()
                + "` to use this tool."@,
            NoticeView::PathNote(p) => "Note: If you still can't access the binary using `"@
                + p.spec_name()
                + "`, the Activated binaries directory might not be included in the PATH."@,
            NoticeView::ExportHint(dir) => "Please use `echo 'export PATH=\""@ + dir
                + ":${PATH}\"' >> [your_config_file]` and reload your terminal to add it to the PATH. (Replace [your_config_file] with your config file e.g. `.zshrc`"@,
        }
    }
}

/// `head`, `middle` and `tail` in one string.
fn framed(head: &str, middle: &str, tail: &str) -> (line: String)
    ensures
        line@ == head@ + middle@ + tail@,
{
    String::from_str(head).concat(middle).concat(tail)
}

impl Notice {
    /// Whether the line belongs on the error stream.
    pub fn is_error(&self) -> (error: bool)
        ensures
            error == self@.is_error(),
    {
        match self {
            Notice::AlreadyInstalled(_) => true,
            Notice::ReinstallHint(_) => true,
            Notice::NotInstalled(_) => true,
            Notice::InstallHint(_) => true,
            Notice::Failure(_) => true,
            Notice::CloneFailed(_) => true,
            Notice::BuildFailed(_) => true,
            _ => false,
        }
    }

    /// The wording of the line.
    pub fn text(&self) -> (line: String)
        ensures
            line@ == self@.text(),
    {
        match self {
            Notice::AlreadyInstalled(p) => framed("Package ", p.name(), " is already installed!"),
            Notice::ReinstallHint(p) => framed(
                "Use `codeydog reinstall ",
                p.name(),
                "` to reinstall it.",
            ),
            Notice::NotInstalled(p) => framed("The package ", p.name(), " is not installed!"),
            Notice::InstallHint(p) => framed(
                "Please use `codeydog install ",
                p.name(),
                " to install it.`",
            ),
            Notice::Trusting(p) => framed("Trusting ", p.repository(), " ..."),
            Notice::Fetching(p) => framed("Fetching ", p.repository(), " ..."),
            Notice::Failure(why) => why.clone(),
            Notice::CloneFailed(why) => String::from_str("Error: Failed to clone: ").concat(
                why.as_str(),
            ),
            Notice::BuildFailed(why) => String::from_str("Error: ").concat(why.as_str()),
            Notice::Copying => String::from_str("Copying binary to binaries directory..."),
            Notice::Done => String::from_str("Done!"),
            Notice::ActivateHint(p) => framed(
                "Use `codeydog activate ",
                p.name(),
                "` to use this tool.",
            ),
            Notice::PathNote(p) => framed(
                "Note: If you still can't access the binary using `",
                p.name(),
                "`, the Activated binaries directory might not be included in the PATH.",
            ),
            Notice::ExportHint(dir) => framed(
                "Please use `echo 'export PATH=\"",
                dir.as_str(),
                ":${PATH}\"' >> [your_config_file]` and reload your terminal to add it to the PATH. (Replace [your_config_file] with your config file e.g. `.zshrc`",
            ),
        }
    }
}

/// The content of a list of notices.
pub open spec fn notices_view(notices: Seq<Notice>) -> Seq<NoticeView> {
    notices.map_values(|n: Notice| n@)
}

} // verus!
