//! The applications that take a pairing file, and where each keeps it.

use crate::device::Device;
use crate::failure::Failure;
use crate::intent::Outcome;
use crate::link::{
    failure_of, LinkCall, LinkReply, Step, DISPLAY_NAME_KEY, USER_APPLICATIONS,
};
use crate::table::NameTable;
use crate::text::same;
use crate::value::Value;
use vstd::prelude::*;
use vstd::string::StringExecFns;

verus! {

/// The folder of an application's container that holds its documents.
pub const DOCUMENTS: &'static str = "/Documents/";

pub const SIDESTORE: &'static str = "SideStore";

pub const FEATHER: &'static str = "Feather";

pub const STIKDEBUG: &'static str = "StikDebug";

/// The file in which SideStore looks for its pairing file.
pub const SIDESTORE_FILE: &'static str = "ALTPairingFile.mobiledevicepairing";

/// The file in which the other applications look for theirs.
pub const PLAIN_FILE: &'static str = "pairingFile.plist";

/// Where the application of display name `name` keeps its pairing file,
/// below its documents; `None` for an application that takes none.
pub open spec fn file_of(name: Seq<char>) -> Option<Seq<char>> {
    if name == SIDESTORE@ {
        Some(SIDESTORE_FILE@)
    } else if name == FEATHER@ || name == STIKDEBUG@ {
        Some(PLAIN_FILE@)
    } else {
        None
    }
}

/// Where the application of display name `name` keeps its pairing file.
pub fn pairing_file_of(name: &str) -> (out: Option<&'static str>)
    ensures
        match out {
            Some(file) => file_of(name@) == Some(file@),
            None => file_of(name@).is_none(),
        },
{
    if same(name, SIDESTORE) {
        Some(SIDESTORE_FILE)
    } else if same(name, FEATHER) || same(name, STIKDEBUG) {
        Some(PLAIN_FILE)
    } else {
        None
    }
}

/// The display names of the applications that take a pairing file.
pub fn supported_apps() -> (out: Vec<String>)
    ensures
        out@.len() == 3,
        out@[0]@ == SIDESTORE@,
        out@[1]@ == FEATHER@,
        out@[2]@ == STIKDEBUG@,
        forall|i: int| 0 <= i < 3 ==> file_of(#[trigger] out@[i]@).is_some(),
{
    let mut out: Vec<String> = Vec::new();
    out.push(String::from_str(SIDESTORE));
    out.push(String::from_str(FEATHER));
    out.push(String::from_str(STIKDEBUG));
    out
}

/// The path, inside an application's container, of the file `relative` of
/// its documents.
pub fn documents_path(relative: &str) -> (out: String)
    ensures
        out@ == DOCUMENTS@ + relative@,
{
    String::from_str(DOCUMENTS).concat(relative)
}

/// The display name in an application's description.
pub open spec fn display_name(description: Value) -> Option<Seq<char>> {
    description.text_entry(DISPLAY_NAME_KEY@)
}

/// Every application in the list has a display name.
pub open spec fn all_named(installed: Seq<(String, Value)>) -> bool {
    forall|i: int| 0 <= i < installed.len() ==> display_name((#[trigger] installed[i]).1).is_some()
}

/// `name` is one of `wanted`.
pub open spec fn is_wanted(wanted: Seq<String>, name: Seq<char>) -> bool {
    exists|i: int| 0 <= i < wanted.len() && (#[trigger] wanted[i])@ == name
}

/// The bundle identifier of each wanted application that is installed, by
/// display name. Where two installed applications share a display name, the
/// later in the list stands.
pub open spec fn chosen(installed: Seq<(String, Value)>, wanted: Seq<String>) -> Map<
    Seq<char>,
    String,
>
    decreases installed.len(),
{
    if installed.len() == 0 {
        Map::empty()
    } else {
        let before = chosen(installed.drop_last(), wanted);
        match display_name(installed.last().1) {
            Some(name) => if is_wanted(wanted, name) {
                before.insert(name, installed.last().0)
            } else {
                before
            },
            None => before,
        }
    }
}

/// Whether `name` is one of `wanted`.
pub fn wanted_has(wanted: &Vec<String>, name: &String) -> (out: bool)
    ensures
        out == is_wanted(wanted@, name@),
{
    let mut i: usize = 0;
    while i < wanted.len()
        invariant
            i <= wanted.len(),
            forall|j: int| 0 <= j < i ==> (#[trigger] wanted@[j])@ != name@,
        decreases wanted.len() - i,
    {
        if wanted[i] == *name {
            return true;
        }
        i += 1;
    }
    false
}

/// Of the applications that a device reports, those that are wanted: the
/// bundle identifier of each, by display name. A report in which any
/// application lacks a display name is refused as a whole.
pub fn select_apps(installed: &Vec<(String, Value)>, wanted: &Vec<String>) -> (out: Result<
    NameTable<String>,
    Failure,
>)
    ensures
        match out {
            Ok(table) => all_named(installed@) && table@ == chosen(installed@, wanted@),
            Err(failure) => failure == Failure::UnexpectedResponse && !all_named(installed@),
        },
{
    let mut table: NameTable<String> = NameTable::new();
    let mut i: usize = 0;
    assert(installed@.take(0) =~= Seq::<(String, Value)>::empty());
    while i < installed.len()
        invariant
            i <= installed.len(),
            all_named(installed@.take(i as int)),
            table@ == chosen(installed@.take(i as int), wanted@),
        decreases installed.len() - i,
    {
        let ghost seen = installed@.take(i as int);
        let ghost next = installed@.take(i + 1);
        proof {
            assert(next.drop_last() == seen);
            assert(next.last() == installed@[i as int]);
        }
        match installed[i].1.get_text(DISPLAY_NAME_KEY) {
            Some(name) => {
                if wanted_has(wanted, name) {
                    table.insert(name.clone(), installed[i].0.clone());
                }
                proof {
                    assert forall|j: int| 0 <= j < next.len() implies display_name(
                        (#[trigger] next[j]).1,
                    ).is_some() by {
                        if j < i {
                            assert(next[j] == seen[j]);
                        }
                    }
                }
            },
            None => {
                return Err(Failure::UnexpectedResponse);
            },
        }
        i += 1;
    }
    assert(installed@.take(installed@.len() as int) == installed@);
    Ok(table)
}

/// Every name that `chosen` holds is wanted and is the display name of an
/// installed application, whose bundle identifier stands under it.
pub proof fn chosen_holds_only_wanted(
    installed: Seq<(String, Value)>,
    wanted: Seq<String>,
    name: Seq<char>,
)
    requires
        chosen(installed, wanted).contains_key(name),
    ensures
        is_wanted(wanted, name),
        exists|i: int|
            0 <= i < installed.len() && display_name((#[trigger] installed[i]).1) == Some(name)
                && chosen(installed, wanted)[name] == installed[i].0,
    decreases installed.len(),
{
    if installed.len() > 0 {
        let before = installed.drop_last();
        let last = installed.last();
        let at = installed.len() - 1;
        if display_name(last.1) == Some(name) && is_wanted(wanted, name) {
            assert(display_name(installed[at].1) == Some(name));
        } else {
            chosen_holds_only_wanted(before, wanted, name);
            let i = choose|i: int|
                0 <= i < before.len() && display_name((#[trigger] before[i]).1) == Some(name)
                    && chosen(before, wanted)[name] == before[i].0;
            assert(installed[i] == before[i]);
        }
    }
}

/// Every installed application that is wanted stands in `chosen` under its
/// display name.
pub proof fn chosen_holds_every_wanted(installed: Seq<(String, Value)>, wanted: Seq<String>, at: int)
    requires
        0 <= at < installed.len(),
        display_name(installed[at].1).is_some(),
        is_wanted(wanted, display_name(installed[at].1).unwrap()),
    ensures
        chosen(installed, wanted).contains_key(display_name(installed[at].1).unwrap()),
    decreases installed.len(),
{
    if at < installed.len() - 1 {
        let before = installed.drop_last();
        assert(before[at] == installed[at]);
        chosen_holds_every_wanted(before, wanted, at);
    }
}

/// How far the search for installed applications has come: the call whose
/// answer is awaited. `wanted` are the display names that are asked for.
#[derive(Debug)]
pub enum AppsStage {
    /// Connecting to the service that knows the applications.
    Opening { wanted: Vec<String> },
    /// Listing the applications that the user installed.
    Listing { wanted: Vec<String> },
}

pub type AppsStep = Step<AppsStage, Outcome>;

/// The first step: connect to the service that knows the applications.
pub open spec fn apps_begin(device: Device, wanted: Vec<String>) -> AppsStep {
    Step::Call(AppsStage::Opening { wanted }, LinkCall::OpenInstallationProxy { device })
}

/// `out` is the step that follows `stage` once its call is answered with
/// `reply`.
///
/// Of the applications that the user installed, those whose display name is
/// wanted are reported, each bundle identifier under the display name. A
/// list in which an application has no display name fails as a whole, as a
/// breach of the protocol; a call that fails ends the search with its error.
pub open spec fn apps_next(stage: AppsStage, reply: LinkReply, out: AppsStep) -> bool {
    match stage {
        AppsStage::Opening { wanted } => match reply {
            LinkReply::Done => out == AppsStep::Call(
                AppsStage::Listing { wanted },
                LinkCall::ListApplications { kind: USER_APPLICATIONS },
            ),
            _ => out == AppsStep::Finish(Outcome::InstalledApps(Err(failure_of(reply)))),
        },
        AppsStage::Listing { wanted } => match reply {
            LinkReply::Applications(installed) => if all_named(installed@) {
                out matches Step::Finish(Outcome::InstalledApps(Ok(table))) && table@ == chosen(
                    installed@,
                    wanted@,
                )
            } else {
                out == AppsStep::Finish(Outcome::InstalledApps(Err(Failure::UnexpectedResponse)))
            },
            _ => out == AppsStep::Finish(Outcome::InstalledApps(Err(failure_of(reply)))),
        },
    }
}

/// Begins the search on `device` for the applications named in `wanted`.
pub fn installed_apps(device: Device, wanted: Vec<String>) -> (out: AppsStep)
    ensures
        out == apps_begin(device, wanted),
{
    Step::Call(AppsStage::Opening { wanted }, LinkCall::OpenInstallationProxy { device })
}

impl AppsStage {
    /// Takes the answer to the call of this stage and gives the next step.
    pub fn advance(self, reply: LinkReply) -> (out: AppsStep)
        ensures
            apps_next(self, reply, out),
    {
        match self {
            AppsStage::Opening { wanted } => match reply {
                LinkReply::Done => Step::Call(
                    AppsStage::Listing { wanted },
                    LinkCall::ListApplications { kind: USER_APPLICATIONS },
                ),
                other => Step::Finish(Outcome::InstalledApps(Err(failure_of(other)))),
            },
            AppsStage::Listing { wanted } => match reply {
                LinkReply::Applications(installed) => Step::Finish(
                    Outcome::InstalledApps(select_apps(&installed, &wanted)),
                ),
                other => Step::Finish(Outcome::InstalledApps(Err(failure_of(other)))),
            },
        }
    }
}

/// The search reports only applications that were asked for, each under its
/// display name with the bundle identifier of an installed application of
/// that name.
pub proof fn search_reports_only_wanted(
    wanted: Vec<String>,
    installed: Vec<(String, Value)>,
    out: AppsStep,
    name: Seq<char>,
)
    requires
        apps_next(AppsStage::Listing { wanted }, LinkReply::Applications(installed), out),
        out matches Step::Finish(Outcome::InstalledApps(Ok(table))) && table@.contains_key(name),
    ensures
        is_wanted(wanted@, name),
        out matches Step::Finish(Outcome::InstalledApps(Ok(table))) && exists|i: int|
            0 <= i < installed@.len() && display_name((#[trigger] installed@[i]).1) == Some(name)
                && table@[name] == installed@[i].0,
{
    chosen_holds_only_wanted(installed@, wanted@, name);
}

} // verus!
