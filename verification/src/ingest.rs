//! The ingestion pipeline: from a payload to the steps that bring it into the
//! library as one mod directory. The library plans; its caller performs the
//! steps, in order, below the library root.

use crate::archive::{
    archive_names, classify_roots, entry_names, has_zip_magic, is_zip, root_layout, RootLayout,
    RootLayoutView,
};
use crate::error::{message_of, ErrorKind, LibraryError};
use crate::ident::{is_generated, random_identifier};
use crate::record::{empty_sidecar, ModSidecar, SidecarView};
use crate::text::{before_first, chars_of, find_char, string_of};
use vstd::prelude::*;
use vstd::string::StringExecFns;

verus! {

/// How many entries of an archive lend their names to a wrapper directory.
pub const WRAPPER_NAME_PARTS: usize = 3;

/// One step of an ingestion. Paths are relative to the library root and use
/// `/` between their components.
#[derive(Debug, Clone, PartialEq, Eq)]
pub enum IngestStep {
    /// Create this directory, and its parents as needed.
    CreateDir { path: String },
    /// Create the parents of this file as needed, then write entry `index` of
    /// the archive to it.
    WriteEntry { path: String, index: usize },
    /// Write the whole payload to this file.
    WritePayload { path: String },
}

/// The mathematical value of an [`IngestStep`].
pub enum IngestStepView {
    CreateDir { path: Seq<char> },
    WriteEntry { path: Seq<char>, index: int },
    WritePayload { path: Seq<char> },
}

impl View for IngestStep {
    type V = IngestStepView;

    open spec fn view(&self) -> IngestStepView {
        match *self {
            IngestStep::CreateDir { path } => IngestStepView::CreateDir { path: path@ },
            IngestStep::WriteEntry { path, index } => IngestStepView::WriteEntry {
                path: path@,
                index: index as int,
            },
            IngestStep::WritePayload { path } => IngestStepView::WritePayload { path: path@ },
        }
    }
}

impl DeepView for IngestStep {
    type V = IngestStepView;

    open spec fn deep_view(&self) -> IngestStepView {
        self@
    }
}

/// The plan of an ingestion.
#[derive(Debug, Clone, PartialEq, Eq)]
pub struct IngestPlan {
    /// The directory, below the library root, that holds the mod afterwards.
    pub mod_dir: String,
    /// What to do, in this order.
    pub steps: Vec<IngestStep>,
    /// Whether the mod gets a new sidecar whatever the payload brought.
    pub fresh_sidecar: bool,
    /// Where the payload came from.
    pub origin_url: String,
}

/// The mathematical value of an [`IngestPlan`].
pub struct IngestPlanView {
    pub mod_dir: Seq<char>,
    pub steps: Seq<IngestStepView>,
    pub fresh_sidecar: bool,
    pub origin_url: Seq<char>,
}

impl View for IngestPlan {
    type V = IngestPlanView;

    open spec fn view(&self) -> IngestPlanView {
        IngestPlanView {
            mod_dir: self.mod_dir@,
            steps: self.steps.deep_view(),
            fresh_sidecar: self.fresh_sidecar,
            origin_url: self.origin_url@,
        }
    }
}

/// `s` after its last `c`, the whole of `s` where it holds none.
pub open spec fn after_last(s: Seq<char>, c: char) -> Seq<char>
    decreases s.len(),
{
    if s.len() == 0 || s.last() == c {
        Seq::empty()
    } else {
        after_last(s.drop_last(), c).push(s.last())
    }
}

/// A file name up to its first `.`.
pub open spec fn stem(file_name: Seq<char>) -> Seq<char> {
    before_first(file_name, '.')
}

/// What opens the name of a mod directory that is named after nothing.
pub open spec fn generated_prefix() -> Seq<char> {
    seq!['m', 'o', 'd', '_']
}

/// The name of the directory for a payload that is no archive: the stem of the
/// suggested file name, or `mod_` and a generated identifier where the stem is
/// empty.
pub open spec fn mod_directory_name(file_name: Seq<char>, fresh: Seq<char>) -> Seq<char> {
    if stem(file_name).len() > 0 {
        stem(file_name)
    } else {
        generated_prefix() + fresh
    }
}

/// What an archive entry lends to the name of a wrapper directory: the stem
/// of its base name.
pub open spec fn entry_stem(entry: Seq<char>) -> Seq<char> {
    stem(after_last(entry, '/'))
}

/// The stems of the first `upto` entries, those that are not empty, with `_`
/// between them.
pub open spec fn joined_stems(names: Seq<Seq<char>>, upto: int) -> Seq<char>
    decreases upto,
{
    if upto <= 0 {
        Seq::empty()
    } else {
        let before = joined_stems(names, upto - 1);
        let next = entry_stem(names[upto - 1]);
        if next.len() == 0 {
            before
        } else if before.len() == 0 {
            next
        } else {
            before + seq!['_'] + next
        }
    }
}

/// The name of the wrapper directory for an archive without a single root:
/// the joined stems of its first few entries, or a generated identifier where
/// those are all empty.
pub open spec fn wrapper_name(names: Seq<Seq<char>>, fresh: Seq<char>) -> Seq<char> {
    let few = if names.len() < WRAPPER_NAME_PARTS {
        names.len() as int
    } else {
        WRAPPER_NAME_PARTS as int
    };
    if joined_stems(names, few).len() > 0 {
        joined_stems(names, few)
    } else {
        fresh
    }
}

/// The step for the archive entry `name` at `index`, to be placed under
/// `base`: an entry whose name ends in `/` is a directory, any other a file.
pub open spec fn entry_step(base: Seq<char>, name: Seq<char>, index: int) -> IngestStepView {
    if name.len() > 0 && name.last() == '/' {
        IngestStepView::CreateDir { path: base + name }
    } else {
        IngestStepView::WriteEntry { path: base + name, index }
    }
}

/// The steps for the first `upto` entries of an archive, placed under `base`.
pub open spec fn entry_steps(base: Seq<char>, names: Seq<Seq<char>>, upto: int) -> Seq<
    IngestStepView,
> {
    Seq::new(upto as nat, |i: int| entry_step(base, names[i], i))
}

/// The plan for an archive with these entry names. With a single root the
/// entries go directly below the library root, and the root of the archive
/// becomes the mod directory. Else a wrapper directory is made first, and the
/// entries go into it.
pub open spec fn archive_plan(names: Seq<Seq<char>>, fresh: Seq<char>, origin_url: Seq<char>) -> IngestPlanView {
    match root_layout(names) {
        RootLayoutView::SingleRoot(root) => IngestPlanView {
            mod_dir: root,
            steps: entry_steps(Seq::empty(), names, names.len() as int),
            fresh_sidecar: false,
            origin_url,
        },
        RootLayoutView::MultiRoot => {
            let wrapper = wrapper_name(names, fresh);
            IngestPlanView {
                mod_dir: wrapper,
                steps: seq![IngestStepView::CreateDir { path: wrapper }] + entry_steps(
                    wrapper + seq!['/'],
                    names,
                    names.len() as int,
                ),
                fresh_sidecar: false,
                origin_url,
            }
        },
    }
}

/// The name of the file that holds a payload that is no archive: the
/// suggested file name, or the name of the directory where none is suggested.
pub open spec fn payload_file_name(file_name: Seq<char>, mod_dir: Seq<char>) -> Seq<char> {
    if file_name.len() > 0 {
        file_name
    } else {
        mod_dir
    }
}

/// The plan for a payload that is no archive: a directory named after the
/// suggested file name, and in it the payload as one file.
pub open spec fn opaque_plan(file_name: Seq<char>, fresh: Seq<char>, origin_url: Seq<char>) -> IngestPlanView {
    let mod_dir = mod_directory_name(file_name, fresh);
    IngestPlanView {
        mod_dir,
        steps: seq![
            IngestStepView::CreateDir { path: mod_dir },
            IngestStepView::WritePayload {
                path: mod_dir + seq!['/'] + payload_file_name(file_name, mod_dir),
            },
        ],
        fresh_sidecar: true,
        origin_url,
    }
}

/// The plan for a payload within the size limit, `None` where the payload
/// opens as a ZIP and cannot be read as one.
pub open spec fn ingest_plan(
    bytes: Seq<u8>,
    file_name: Seq<char>,
    origin_url: Seq<char>,
    fresh: Seq<char>,
) -> Option<IngestPlanView> {
    if !has_zip_magic(bytes) {
        Some(opaque_plan(file_name, fresh, origin_url))
    } else {
        match archive_names(bytes) {
            Some(names) => Some(archive_plan(names, fresh, origin_url)),
            None => None,
        }
    }
}

/// The sidecar of an ingested mod: what the mod brought, with the origin as
/// its address, and with an identifier where it brought none.
pub open spec fn stamped(base: SidecarView, origin_url: Seq<char>, candidate: Seq<char>) -> SidecarView {
    SidecarView {
        id: if base.id.len() > 0 {
            base.id
        } else {
            candidate
        },
        url: origin_url,
        ..base
    }
}

/// The sidecar that an ingestion starts from: the one found in the mod
/// directory, or the empty one where the plan asks for a new one or none was
/// found.
pub open spec fn stamp_base(fresh_sidecar: bool, existing: Option<SidecarView>) -> SidecarView {
    if fresh_sidecar {
        empty_sidecar()
    } else {
        match existing {
            Some(s) => s,
            None => empty_sidecar(),
        }
    }
}

/// Everything after a position that holds `c` or ends `s`, and after which no
/// `c` stands, is `after_last(s, c)`.
proof fn lemma_after_last(s: Seq<char>, c: char, at: int)
    requires
        0 <= at <= s.len(),
        at > 0 ==> s[at - 1] == c,
        forall|j: int| at <= j < s.len() ==> s[j] != c,
    ensures
        after_last(s, c) == s.subrange(at, s.len() as int),
    decreases s.len(),
{
    if s.len() > at {
        lemma_after_last(s.drop_last(), c, at);
    }
}

/// A file name up to its first `.`.
pub fn stem_of(file_name: &str) -> (text: String)
    ensures
        text@ == stem(file_name@),
{
    let chars = chars_of(file_name);
    let cut = find_char(&chars, 0, '.');
    proof {
        assert(chars@.skip(0) =~= chars@);
    }
    string_of(&chars, 0, cut)
}

/// What an archive entry lends to the name of a wrapper directory.
pub fn entry_stem_of(entry: &str) -> (text: String)
    ensures
        text@ == entry_stem(entry@),
{
    let chars = chars_of(entry);
    let mut at: usize = chars.len();
    while at > 0 && chars[at - 1] != '/'
        invariant
            at <= chars.len(),
            forall|j: int| at <= j < chars.len() ==> chars@[j] != '/',
        decreases at,
    {
        at -= 1;
    }
    let cut = find_char(&chars, at, '.');
    proof {
        lemma_after_last(chars@, '/', at as int);
    }
    string_of(&chars, at, cut)
}

/// The name of the directory for a payload that is no archive.
pub fn mod_directory_name_for(file_name: &str, fresh: &str) -> (name: String)
    ensures
        name@ == mod_directory_name(file_name@, fresh@),
{
    let stem = stem_of(file_name);
    if !stem.as_str().is_empty() {
        stem
    } else {
        proof {
            reveal_strlit("mod_");
        }
        let mut name = String::from_str("mod_");
        name.append(fresh);
        name
    }
}

/// The name of the wrapper directory for an archive without a single root.
pub fn wrapper_name_for(names: &Vec<String>, fresh: &str) -> (name: String)
    ensures
        name@ == wrapper_name(names.deep_view(), fresh@),
{
    let few: usize = if names.len() < WRAPPER_NAME_PARTS {
        names.len()
    } else {
        WRAPPER_NAME_PARTS
    };
    let ghost texts = names.deep_view();
    let mut joined = String::new();
    let mut i: usize = 0;
    proof {
        reveal_strlit("_");
    }
    while i < few
        invariant
            i <= few <= names.len(),
            texts == names.deep_view(),
            "_"@ == seq!['_'],
            joined@ == joined_stems(texts, i as int),
        decreases few - i,
    {
        let next = entry_stem_of(names[i].as_str());
        if !next.as_str().is_empty() {
            if !joined.as_str().is_empty() {
                joined.append("_");
            }
            joined.append(next.as_str());
        }
        i += 1;
    }
    if !joined.as_str().is_empty() {
        joined
    } else {
        fresh.to_owned()
    }
}

/// The plan for a payload that is no archive, given the identifier to name the
/// directory by where the file name lends none.
pub fn plan_opaque(file_name: &str, fresh: &str, origin_url: &str) -> (plan: IngestPlan)
    ensures
        plan@ == opaque_plan(file_name@, fresh@, origin_url@),
{
    let mod_dir = mod_directory_name_for(file_name, fresh);
    let mut file_path = mod_dir.clone();
    proof {
        reveal_strlit("/");
        assert("/"@ =~= seq!['/']);
    }
    file_path.append("/");
    if !file_name.is_empty() {
        file_path.append(file_name);
    } else {
        file_path.append(mod_dir.as_str());
    }
    let mut steps: Vec<IngestStep> = Vec::new();
    steps.push(IngestStep::CreateDir { path: mod_dir.clone() });
    steps.push(IngestStep::WritePayload { path: file_path });
    let plan = IngestPlan {
        mod_dir,
        steps,
        fresh_sidecar: true,
        origin_url: origin_url.to_owned(),
    };
    assert(plan@.steps =~= opaque_plan(file_name@, fresh@, origin_url@).steps);
    plan
}

/// The plan for an archive with these entry names, given the identifier to
/// name a wrapper directory by where the entries lend no name.
pub fn plan_archive(names: &Vec<String>, fresh: &str, origin_url: &str) -> (plan: IngestPlan)
    ensures
        plan@ == archive_plan(names.deep_view(), fresh@, origin_url@),
{
    let ghost texts = names.deep_view();
    let mut steps: Vec<IngestStep> = Vec::new();
    let (mod_dir, base) = match classify_roots(names) {
        RootLayout::SingleRoot(root) => (root, String::new()),
        RootLayout::MultiRoot => {
            let wrapper = wrapper_name_for(names, fresh);
            let mut base = wrapper.clone();
            proof {
                reveal_strlit("/");
                assert("/"@ =~= seq!['/']);
            }
            base.append("/");
            steps.push(IngestStep::CreateDir { path: wrapper.clone() });
            (wrapper, base)
        },
    };
    let ghost lead = steps.deep_view();
    let mut i: usize = 0;
    while i < names.len()
        invariant
            i <= names.len(),
            texts == names.deep_view(),
            steps.deep_view() == lead + entry_steps(base@, texts, i as int),
        decreases names.len() - i,
    {
        let name = &names[i];
        let chars = chars_of(name.as_str());
        let mut path = base.clone();
        path.append(name.as_str());
        let step = if chars.len() > 0 && chars[chars.len() - 1] == '/' {
            IngestStep::CreateDir { path }
        } else {
            IngestStep::WriteEntry { path, index: i }
        };
        let ghost before = steps.deep_view();
        steps.push(step);
        assert(steps.deep_view() =~= before.push(step@));
        i += 1;
    }
    let plan = IngestPlan { mod_dir, steps, fresh_sidecar: false, origin_url: origin_url.to_owned() };
    assert(plan@.steps =~= archive_plan(texts, fresh@, origin_url@).steps);
    plan
}

/// Plans the ingestion of a payload. Fails with `PayloadTooLarge` where the
/// payload is over the size limit, and with `InvalidArchive` where it opens as
/// a ZIP and cannot be read as one. In both cases no step is planned, so
/// nothing is written. Else the plan is that of a payload that is no archive,
/// or that of the archive's entries.
pub fn ingest_from_bytes(bytes: &[u8], size_limit: usize, file_name: &str, origin_url: &str) -> (outcome:
    Result<IngestPlan, LibraryError>)
    ensures
        bytes@.len() > size_limit ==> outcome == Err::<IngestPlan, LibraryError>(
            LibraryError::PayloadTooLarge { size: bytes@.len() as u64, limit: size_limit as u64 },
        ),
        bytes@.len() <= size_limit ==> match outcome {
            Ok(plan) => exists|fresh: Seq<char>|
                is_generated(fresh) && #[trigger] ingest_plan(
                    bytes@,
                    file_name@,
                    origin_url@,
                    fresh,
                ) == Some(plan@),
            Err(error) => {
                &&& error.kind() == ErrorKind::InvalidArchive
                &&& has_zip_magic(bytes@)
                &&& archive_names(bytes@) is None
            },
        },
{
    if bytes.len() > size_limit {
        return Err(
            LibraryError::PayloadTooLarge { size: bytes.len() as u64, limit: size_limit as u64 },
        );
    }
    if !is_zip(bytes) {
        let fresh = random_identifier();
        let plan = plan_opaque(file_name, fresh.as_str(), origin_url);
        assert(ingest_plan(bytes@, file_name@, origin_url@, fresh@) == Some(plan@));
        return Ok(plan);
    }
    match entry_names(bytes) {
        Ok(names) => {
            let fresh = random_identifier();
            let plan = plan_archive(&names, fresh.as_str(), origin_url);
            assert(ingest_plan(bytes@, file_name@, origin_url@, fresh@) == Some(plan@));
            Ok(plan)
        },
        Err(error) => Err(error),
    }
}

/// The sidecar of an ingested mod, given the identifier to hand out where the
/// mod brought none.
pub fn stamp_with(base: ModSidecar, origin_url: &str, candidate: String) -> (sidecar: ModSidecar)
    ensures
        sidecar@ == stamped(base@, origin_url@, candidate@),
{
    let id = if !base.id.as_str().is_empty() {
        base.id
    } else {
        candidate
    };
    ModSidecar {
        id,
        author: base.author,
        description: base.description,
        version: base.version,
        category: base.category,
        url: origin_url.to_owned(),
    }
}

impl IngestPlan {
    /// The sidecar to write once the steps are done, given the sidecar that is
    /// then found in the mod directory, if any. It keeps what was found, but for
    /// the address, which becomes the origin, and for a missing identifier,
    /// which is generated.
    pub fn stamp(&self, existing: Option<ModSidecar>) -> (sidecar: ModSidecar)
        ensures
            sidecar@ == stamped(
                stamp_base(self.fresh_sidecar, existing.deep_view()),
                self.origin_url@,
                sidecar@.id,
            ),
            stamp_base(self.fresh_sidecar, existing.deep_view()).id.len() == 0 ==> is_generated(
                sidecar@.id,
            ),
    {
        let base = if self.fresh_sidecar {
            ModSidecar::empty()
        } else {
            ModSidecar::or_empty(existing)
        };
        let candidate = if !base.id.as_str().is_empty() {
            String::new()
        } else {
            random_identifier()
        };
        stamp_with(base, self.origin_url.as_str(), candidate)
    }
}

/// The name under which a local directory enters the library, or the kind of
/// the failure: the source and the library root have to be directories, the
/// source has to have a base name, and nothing may lie under that name in the
/// library yet.
pub open spec fn local_ingest_choice(
    source_is_directory: bool,
    target_is_directory: bool,
    source_name: Option<Seq<char>>,
    destination_exists: bool,
) -> Result<Seq<char>, ErrorKind> {
    if !source_is_directory || !target_is_directory {
        Err(ErrorKind::InvalidPath)
    } else {
        match source_name {
            None => Err(ErrorKind::InvalidPath),
            Some(name) => if destination_exists {
                Err(ErrorKind::RenameFailed)
            } else {
                Ok(name)
            },
        }
    }
}

/// The message of a refusal to let a local directory in.
pub open spec fn local_refusal_message(
    source_is_directory: bool,
    target_is_directory: bool,
    source_name: Option<Seq<char>>,
) -> Seq<char> {
    if !source_is_directory {
        "Mod directory does not exist"@
    } else if !target_is_directory {
        "Target directory does not exist"@
    } else if source_name is None {
        "Invalid mod directory name"@
    } else {
        "Mod already exists in the target directory"@
    }
}

/// Decides whether a local directory may enter the library, and under which
/// name: its own base name. The caller then copies the directory to that name
/// below the library root and, once the copy is whole, deletes the source. A
/// directory of the same name in the library is never merged into: the call
/// fails with `RenameFailed`, and the source stays as it is.
pub fn ingest_local(
    source_is_directory: bool,
    target_is_directory: bool,
    source_name: Option<&str>,
    destination_exists: bool,
) -> (outcome: Result<String, LibraryError>)
    ensures
        match outcome {
            Ok(name) => local_ingest_choice(
                source_is_directory,
                target_is_directory,
                source_name.deep_view(),
                destination_exists,
            ) == Ok::<Seq<char>, ErrorKind>(name@),
            Err(error) => local_ingest_choice(
                source_is_directory,
                target_is_directory,
                source_name.deep_view(),
                destination_exists,
            ) == Err::<Seq<char>, ErrorKind>(error.kind()) && message_of(error)
                == local_refusal_message(
                source_is_directory,
                target_is_directory,
                source_name.deep_view(),
            ),
        },
{
    if !source_is_directory {
        return Err(LibraryError::InvalidPath(String::from_str("Mod directory does not exist")));
    }
    if !target_is_directory {
        return Err(
            LibraryError::InvalidPath(String::from_str("Target directory does not exist")),
        );
    }
    match source_name {
        None => Err(LibraryError::InvalidPath(String::from_str("Invalid mod directory name"))),
        Some(name) => {
            if destination_exists {
                Err(
                    LibraryError::RenameFailed(
                        String::from_str("Mod already exists in the target directory"),
                    ),
                )
            } else {
                Ok(name.to_owned())
            }
        },
    }
}

/// How one step of an ingestion ended.
#[derive(Debug, Clone, PartialEq, Eq)]
pub enum StepOutcome {
    /// The step is done.
    Done,
    /// A directory or a file could not be written.
    WriteFailed(String),
    /// The archive entry to write could not be unpacked.
    EntryUnreadable(String),
}

/// One ingestion in progress: the plan, how many of its steps are done, and
/// whether a failure has stopped the run. The caller asks for the next step,
/// performs it, and reports how it ended. Nothing is undone after a failure:
/// what the steps before it wrote stays on disk.
#[derive(Debug)]
pub struct IngestRun {
    plan: IngestPlan,
    handled: usize,
    stopped: bool,
}

impl IngestRun {
    /// What holds of every run that `begin` made: no more steps are done than
    /// were planned.
    pub closed spec fn well_formed(&self) -> bool {
        self.handled <= self.plan.steps.len()
    }

    /// The plan that is carried out.
    pub closed spec fn plan(&self) -> IngestPlanView {
        self.plan@
    }

    /// The number of steps that are done.
    pub closed spec fn handled(&self) -> int {
        self.handled as int
    }

    /// Whether a failure has stopped the run.
    pub closed spec fn stopped(&self) -> bool {
        self.stopped
    }

    /// Whether a step is waiting to be performed.
    pub open spec fn pending(&self) -> bool {
        !self.stopped() && self.handled() < self.plan().steps.len()
    }

    /// Whether every step is done, so that the sidecar can be stamped.
    pub open spec fn complete(&self) -> bool {
        !self.stopped() && self.handled() == self.plan().steps.len()
    }

    /// Starts to carry out a plan.
    pub fn begin(plan: IngestPlan) -> (run: IngestRun)
        ensures
            run.well_formed(),
            run.plan() == plan@,
            run.handled() == 0,
            !run.stopped(),
    {
        IngestRun { plan, handled: 0, stopped: false }
    }

    /// The step to perform next: the first that is not done, or none where all
    /// are done or the run was stopped.
    pub fn next(&self) -> (step: Option<&IngestStep>)
        requires
            self.well_formed(),
        ensures
            match step {
                Some(next) => self.pending() && next@ == self.plan().steps[self.handled()],
                None => !self.pending(),
            },
    {
        if !self.stopped && self.handled < self.plan.steps.len() {
            Some(&self.plan.steps[self.handled])
        } else {
            None
        }
    }

    /// Takes note of how the pending step ended. After a step that is done the
    /// run moves on. A write that failed stops the run with `IoError`, an
    /// entry that could not be unpacked stops it with `InvalidArchive`, each
    /// with the cause as its message; no further step is handed out.
    pub fn record(&mut self, outcome: StepOutcome) -> (next: Result<(), LibraryError>)
        requires
            old(self).well_formed(),
            old(self).pending(),
        ensures
            final(self).well_formed(),
            final(self).plan() == old(self).plan(),
            match outcome {
                StepOutcome::Done => {
                    &&& next is Ok
                    &&& !final(self).stopped()
                    &&& final(self).handled() == old(self).handled() + 1
                },
                StepOutcome::WriteFailed(cause) => {
                    &&& next == Err::<(), LibraryError>(LibraryError::IoError(cause))
                    &&& final(self).stopped()
                    &&& final(self).handled() == old(self).handled()
                },
                StepOutcome::EntryUnreadable(cause) => {
                    &&& next == Err::<(), LibraryError>(LibraryError::InvalidArchive(cause))
                    &&& final(self).stopped()
                    &&& final(self).handled() == old(self).handled()
                },
            },
    {
        match outcome {
            StepOutcome::Done => {
                self.handled = self.handled + 1;
                Ok(())
            },
            StepOutcome::WriteFailed(cause) => {
                self.stopped = true;
                Err(LibraryError::IoError(cause))
            },
            StepOutcome::EntryUnreadable(cause) => {
                self.stopped = true;
                Err(LibraryError::InvalidArchive(cause))
            },
        }
    }

    /// The sidecar to write once every step is done, given the sidecar that is
    /// then found in the mod directory, if any: see [`IngestPlan::stamp`].
    pub fn stamp(&self, existing: Option<ModSidecar>) -> (sidecar: ModSidecar)
        requires
            self.well_formed(),
            self.complete(),
        ensures
            sidecar@ == stamped(
                stamp_base(self.plan().fresh_sidecar, existing.deep_view()),
                self.plan().origin_url,
                sidecar@.id,
            ),
            stamp_base(self.plan().fresh_sidecar, existing.deep_view()).id.len() == 0
                ==> is_generated(sidecar@.id),
    {
        self.plan.stamp(existing)
    }

    /// The directory, below the library root, that holds the mod afterwards.
    pub fn mod_dir(&self) -> (name: &String)
        ensures
            name@ == self.plan().mod_dir,
    {
        &self.plan.mod_dir
    }

    /// Whether every step is done.
    pub fn is_complete(&self) -> (done: bool)
        requires
            self.well_formed(),
        ensures
            done == self.complete(),
    {
        !self.stopped && self.handled == self.plan.steps.len()
    }
}

} // verus!
