//! The runtime of the program on Windows: which files it needs, where they may come from, and
//! what is taken out of a release.

use crate::platform::state;
use crate::platform::state::extension_of;
use crate::strs;
use crate::text;
use vstd::prelude::*;

verus! {

/// The folder beside the program that holds what comes with it.
pub const WINDOWS_BUNDLE_SUPPORT_DIR_NAME: &'static str = "RoosyCozy";

/// Where the runtime is fetched.
pub const WINDOWS_RUNTIME_URL: &'static str =
    "https://github.com/myongsung/class/releases/latest/download/roosycozy-windows-runtime.zip";

/// The file that says that the runtime is complete.
pub const WINDOWS_RUNTIME_MARKER_FILENAME: &'static str = ".runtime-ready";

/// The program among the files of a release.
pub const PROGRAM_FILENAME: &'static str = "roosycozy.exe";

/// What is said where the runtime could not be made complete.
pub const RUNTIME_MISSING: &'static str = "resident llama-server runtime을 준비하지 못했어요.";

/// What is said where there are no models.
pub const MODELS_MISSING: &'static str =
    "설치된 Windows 앱에서 기본 모델 파일을 찾지 못했어요. installer에 models 리소스가 포함되어야 해요.";

/// The libraries that belong to the runtime.
pub open spec fn sidecar_files() -> Seq<Seq<char>> {
    seq!["llama.dll"@, "mtmd.dll"@]
}

/// The programs that belong to the runtime.
pub open spec fn server_files() -> Seq<Seq<char>> {
    seq!["llama-server.exe"@]
}

/// The libraries of the compiler that the runtime needs.
pub open spec fn msvc_files() -> Seq<Seq<char>> {
    seq!["msvcp140.dll"@, "vcruntime140.dll"@, "vcruntime140_1.dll"@, "concrt140.dll"@]
}

/// The files without which a runtime is not complete.
pub open spec fn runtime_files() -> Seq<Seq<char>> {
    sidecar_files() + server_files() + msvc_files()
}

/// The files without which the models are not complete.
pub open spec fn model_files() -> Seq<Seq<char>> {
    seq!["HyperCLOVAX-SEED-Text-Instruct-0.5B-q4_0.gguf"@, "hyperclovax_roosy_Q4_K_M.gguf"@]
}

/// The libraries that belong to the runtime.
pub fn windows_sidecar_required_files() -> (r: Vec<String>)
    ensures
        strs::views(r@) == sidecar_files(),
{
    let r = text::owned(&["llama.dll", "mtmd.dll"]);
    assert(strs::views(r@) =~= sidecar_files());
    r
}

/// The programs that belong to the runtime.
pub fn windows_resident_server_required_files() -> (r: Vec<String>)
    ensures
        strs::views(r@) == server_files(),
{
    let r = text::owned(&["llama-server.exe"]);
    assert(strs::views(r@) =~= server_files());
    r
}

/// The libraries of the compiler that the runtime needs.
pub fn windows_msvc_runtime_files() -> (r: Vec<String>)
    ensures
        strs::views(r@) == msvc_files(),
{
    let r = text::owned(
        &["msvcp140.dll", "vcruntime140.dll", "vcruntime140_1.dll", "concrt140.dll"],
    );
    assert(strs::views(r@) =~= msvc_files());
    r
}

/// The files without which a runtime is not complete.
pub fn windows_runtime_required_files() -> (r: Vec<String>)
    ensures
        strs::views(r@) == runtime_files(),
{
    let mut r = windows_sidecar_required_files();
    text::push_all(&mut r, &windows_resident_server_required_files());
    text::push_all(&mut r, &windows_msvc_runtime_files());
    r
}

/// The files without which the models are not complete.
pub fn windows_model_required_files() -> (r: Vec<String>)
    ensures
        strs::views(r@) == model_files(),
{
    let r = text::owned(
        &["HyperCLOVAX-SEED-Text-Instruct-0.5B-q4_0.gguf", "hyperclovax_roosy_Q4_K_M.gguf"],
    );
    assert(strs::views(r@) =~= model_files());
    r
}

/// Whether each of these names is among the others.
pub open spec fn all_listed(names: Seq<Seq<char>>, list: Seq<Seq<char>>) -> bool {
    forall|i: int| 0 <= i < names.len() ==> list.contains(#[trigger] names[i])
}

/// The first of these names that is not among the others, from position `i` on.
pub open spec fn first_unlisted(names: Seq<Seq<char>>, list: Seq<Seq<char>>, i: int) -> Option<
    Seq<char>,
>
    decreases names.len() - i,
{
    if i < 0 || i >= names.len() {
        None
    } else if list.contains(names[i]) {
        first_unlisted(names, list, i + 1)
    } else {
        Some(names[i])
    }
}

fn find_unlisted(names: &Vec<String>, list: &Vec<String>) -> (r: Option<String>)
    ensures
        strs::opt_view(r) == first_unlisted(strs::views(names@), strs::views(list@), 0),
        r is None == all_listed(strs::views(names@), strs::views(list@)),
{
    let ghost wanted = strs::views(names@);
    let ghost present = strs::views(list@);
    let mut i: usize = 0;
    while i < names.len()
        invariant
            i <= names@.len(),
            wanted == strs::views(names@),
            present == strs::views(list@),
            first_unlisted(wanted, present, 0) == first_unlisted(wanted, present, i as int),
            forall|j: int| 0 <= j < i ==> present.contains(#[trigger] wanted[j]),
        decreases names@.len() - i,
    {
        assert(wanted[i as int] == names@[i as int]@);
        if !text::listed(list, &names[i]) {
            return Some(text::copy(&names[i]));
        }
        i += 1;
    }
    None
}

/// Whether the runtime in a folder is complete. The names are those of its needed files that are
/// there.
pub fn windows_runtime_dir_has_required_files(dir_exists: bool, present: &Vec<String>) -> (r: bool)
    ensures
        r == (dir_exists && all_listed(runtime_files(), strs::views(present@))),
{
    if !dir_exists {
        return false;
    }
    let names = windows_runtime_required_files();
    find_unlisted(&names, present).is_none()
}

/// Whether a folder of programs that are started anew is whole: one of the programs is in it, and
/// so are the libraries that belong to it. The names are those of its needed files that are there.
pub fn sidecar_is_whole(program_found: bool, present: &Vec<String>) -> (r: bool)
    ensures
        r == (program_found && all_listed(sidecar_files(), strs::views(present@))),
{
    if !program_found {
        return false;
    }
    let names = windows_sidecar_required_files();
    find_unlisted(&names, present).is_none()
}

/// Whether the models in a folder are complete. The names are those of its needed files that are
/// there.
pub fn windows_model_dir_has_required_files(present: &Vec<String>) -> (r: bool)
    ensures
        r == all_listed(model_files(), strs::views(present@)),
{
    let names = windows_model_required_files();
    find_unlisted(&names, present).is_none()
}

/// The folders beside the program that may hold a runtime, in order.
pub fn windows_install_runtime_dirs() -> (r: Vec<Vec<String>>)
    ensures
        r@.map_values(|p: Vec<String>| strs::views(p@)) == seq![
            seq![WINDOWS_BUNDLE_SUPPORT_DIR_NAME@, "runtime"@],
            seq![WINDOWS_BUNDLE_SUPPORT_DIR_NAME@, "sidecar"@],
            seq!["runtime"@],
            seq!["sidecar"@],
        ],
{
    let a = text::owned(&[WINDOWS_BUNDLE_SUPPORT_DIR_NAME, "runtime"]);
    let b = text::owned(&[WINDOWS_BUNDLE_SUPPORT_DIR_NAME, "sidecar"]);
    let c = text::owned(&["runtime"]);
    let d = text::owned(&["sidecar"]);
    assert(strs::views(a@) =~= seq![WINDOWS_BUNDLE_SUPPORT_DIR_NAME@, "runtime"@]);
    assert(strs::views(b@) =~= seq![WINDOWS_BUNDLE_SUPPORT_DIR_NAME@, "sidecar"@]);
    assert(strs::views(c@) =~= seq!["runtime"@]);
    assert(strs::views(d@) =~= seq!["sidecar"@]);
    let mut r: Vec<Vec<String>> = Vec::new();
    r.push(a);
    r.push(b);
    r.push(c);
    r.push(d);
    assert(r@.map_values(|p: Vec<String>| strs::views(p@)) =~= seq![
        seq![WINDOWS_BUNDLE_SUPPORT_DIR_NAME@, "runtime"@],
        seq![WINDOWS_BUNDLE_SUPPORT_DIR_NAME@, "sidecar"@],
        seq!["runtime"@],
        seq!["sidecar"@],
    ]);
    r
}

/// The folders beside the program that may hold the models, in order.
pub fn windows_install_model_dirs() -> (r: Vec<Vec<String>>)
    ensures
        r@.map_values(|p: Vec<String>| strs::views(p@)) == seq![
            seq![WINDOWS_BUNDLE_SUPPORT_DIR_NAME@, "resources"@, "models"@],
            seq![WINDOWS_BUNDLE_SUPPORT_DIR_NAME@, "models"@],
            seq!["resources"@, "models"@],
            seq!["models"@],
        ],
{
    let a = text::owned(&[WINDOWS_BUNDLE_SUPPORT_DIR_NAME, "resources", "models"]);
    let b = text::owned(&[WINDOWS_BUNDLE_SUPPORT_DIR_NAME, "models"]);
    let c = text::owned(&["resources", "models"]);
    let d = text::owned(&["models"]);
    assert(strs::views(a@) =~= seq![WINDOWS_BUNDLE_SUPPORT_DIR_NAME@, "resources"@, "models"@]);
    assert(strs::views(b@) =~= seq![WINDOWS_BUNDLE_SUPPORT_DIR_NAME@, "models"@]);
    assert(strs::views(c@) =~= seq!["resources"@, "models"@]);
    assert(strs::views(d@) =~= seq!["models"@]);
    let mut r: Vec<Vec<String>> = Vec::new();
    r.push(a);
    r.push(b);
    r.push(c);
    r.push(d);
    assert(r@.map_values(|p: Vec<String>| strs::views(p@)) =~= seq![
        seq![WINDOWS_BUNDLE_SUPPORT_DIR_NAME@, "resources"@, "models"@],
        seq![WINDOWS_BUNDLE_SUPPORT_DIR_NAME@, "models"@],
        seq!["resources"@, "models"@],
        seq!["models"@],
    ]);
    r
}

/// The text of the file that says that the runtime is complete, and where it came from.
pub fn windows_runtime_marker(source: &str) -> (r: String)
    ensures
        r@ == ("runtime-ready\nsource="@ + source@ + "\n"@),
{
    let mut out = text::copy("runtime-ready\nsource=");
    out.append(source);
    out.append("\n");
    out
}

/// Whether the runtime has to be put back: not where it stands among the resources or beside the
/// program. Else what the program keeps itself has to be complete and to say so. The folder of
/// the program, and what it keeps, may be unknown.
pub fn windows_runtime_needs_repair(
    resource_complete: bool,
    installed_complete: Option<bool>,
    kept: Option<(bool, bool)>,
) -> (r: bool)
    ensures
        r == (!resource_complete && match installed_complete {
            Some(true) => false,
            Some(false) => match kept {
                Some((complete, marked)) => !complete || !marked,
                None => true,
            },
            None => true,
        }),
{
    if resource_complete {
        return false;
    }
    match installed_complete {
        Some(true) => false,
        Some(false) => match kept {
            Some((complete, marked)) => !complete || !marked,
            None => true,
        },
        None => true,
    }
}

/// What is known of the runtime and of the models before a step.
#[derive(Debug)]
pub struct RuntimeFacts {
    /// Whether the runtime that the program keeps is complete.
    pub kept_complete: bool,
    /// Whether it says so.
    pub marked: bool,
    /// Whether that among the resources is complete.
    pub resource_complete: bool,
    /// Whether those beside the program are complete, one by one.
    pub installed_complete: Vec<bool>,
    /// Whether the program holds one itself.
    pub embedded: bool,
    /// Whether the models that the program keeps are complete.
    pub models_complete: bool,
    /// Whether those among the resources are complete.
    pub resource_models_complete: bool,
    /// Whether those beside the program are complete, one by one.
    pub installed_models_complete: Vec<bool>,
    /// Whether there are folders for them beside the program, one by one.
    pub installed_models_exist: Vec<bool>,
}

/// What is done next to make the runtime and the models complete.
#[derive(Debug)]
pub enum RuntimeAction {
    Nothing,
    CopyResourceRuntime,
    CopyInstalledRuntime(usize),
    MarkResource,
    MarkInstalled(usize),
    MarkExisting,
    RestoreEmbedded,
    Download,
    CopyResourceModels,
    CopyInstalledModels(usize),
    Finish,
    /// The runtime could not be made complete.
    FailRuntime,
    /// There are no models.
    FailModels,
}

/// How far making the runtime and the models complete has come.
#[derive(Debug, Clone, Copy)]
pub enum RuntimePhase {
    Resource,
    ResourceCopied,
    Installed,
    InstalledCopied(usize),
    Embedded,
    Complete,
    Models,
    InstalledModels,
    ModelsComplete(bool),
    Over,
}

/// The first place that is true, from position `i` on.
pub open spec fn first_true(list: Seq<bool>, i: int) -> Option<int>
    decreases list.len() - i,
{
    if i < 0 || i >= list.len() {
        None
    } else if list[i] {
        Some(i)
    } else {
        first_true(list, i + 1)
    }
}

fn find_true(list: &Vec<bool>) -> (r: Option<usize>)
    ensures
        match r {
            Some(i) => first_true(list@, 0) == Some(i as int) && i < list@.len() && list@[i as int],
            None => first_true(list@, 0) is None,
        },
{
    let mut i: usize = 0;
    while i < list.len()
        invariant
            i <= list@.len(),
            first_true(list@, 0) == first_true(list@, i as int),
        decreases list@.len() - i,
    {
        if list[i] {
            return Some(i);
        }
        i += 1;
    }
    None
}

/// What is done in a phase, and which one follows.
pub open spec fn runtime_next(phase: RuntimePhase, f: RuntimeFacts) -> (RuntimeAction, RuntimePhase) {
    match phase {
        RuntimePhase::Resource => if !f.kept_complete && f.resource_complete {
            (RuntimeAction::CopyResourceRuntime, RuntimePhase::ResourceCopied)
        } else {
            (RuntimeAction::Nothing, RuntimePhase::Installed)
        },
        RuntimePhase::ResourceCopied => if f.kept_complete {
            (RuntimeAction::MarkResource, RuntimePhase::Installed)
        } else {
            (RuntimeAction::Nothing, RuntimePhase::Installed)
        },
        RuntimePhase::Installed => match first_true(f.installed_complete@, 0) {
            Some(i) => if !f.kept_complete {
                (
                    RuntimeAction::CopyInstalledRuntime(i as usize),
                    RuntimePhase::InstalledCopied(i as usize),
                )
            } else {
                (RuntimeAction::Nothing, RuntimePhase::Embedded)
            },
            None => (RuntimeAction::Nothing, RuntimePhase::Embedded),
        },
        RuntimePhase::InstalledCopied(i) => if f.kept_complete {
            (RuntimeAction::MarkInstalled(i), RuntimePhase::Embedded)
        } else {
            (RuntimeAction::Nothing, RuntimePhase::Embedded)
        },
        RuntimePhase::Embedded => if f.kept_complete {
            (RuntimeAction::Nothing, RuntimePhase::Complete)
        } else if f.embedded {
            (RuntimeAction::RestoreEmbedded, RuntimePhase::Complete)
        } else {
            (RuntimeAction::Download, RuntimePhase::Complete)
        },
        RuntimePhase::Complete => if !f.kept_complete {
            (RuntimeAction::FailRuntime, RuntimePhase::Over)
        } else if !f.marked {
            (RuntimeAction::MarkExisting, RuntimePhase::Models)
        } else {
            (RuntimeAction::Nothing, RuntimePhase::Models)
        },
        RuntimePhase::Models => if !f.models_complete && f.resource_models_complete {
            (RuntimeAction::CopyResourceModels, RuntimePhase::InstalledModels)
        } else {
            (RuntimeAction::Nothing, RuntimePhase::InstalledModels)
        },
        RuntimePhase::InstalledModels => {
            let installed = first_true(f.installed_models_complete@, 0) is Some;
            match first_true(f.installed_models_exist@, 0) {
                Some(i) => if !installed {
                    (
                        RuntimeAction::CopyInstalledModels(i as usize),
                        RuntimePhase::ModelsComplete(installed),
                    )
                } else {
                    (RuntimeAction::Nothing, RuntimePhase::ModelsComplete(installed))
                },
                None => (RuntimeAction::Nothing, RuntimePhase::ModelsComplete(installed)),
            }
        },
        RuntimePhase::ModelsComplete(installed) => if !f.models_complete && !installed {
            (RuntimeAction::FailModels, RuntimePhase::Over)
        } else {
            (RuntimeAction::Finish, RuntimePhase::Over)
        },
        RuntimePhase::Over => (RuntimeAction::Finish, RuntimePhase::Over),
    }
}

/// What is done in a phase, and which one follows.
pub fn runtime_step(phase: RuntimePhase, f: &RuntimeFacts) -> (r: (RuntimeAction, RuntimePhase))
    ensures
        r == runtime_next(phase, *f),
{
    match phase {
        RuntimePhase::Resource => if !f.kept_complete && f.resource_complete {
            (RuntimeAction::CopyResourceRuntime, RuntimePhase::ResourceCopied)
        } else {
            (RuntimeAction::Nothing, RuntimePhase::Installed)
        },
        RuntimePhase::ResourceCopied => if f.kept_complete {
            (RuntimeAction::MarkResource, RuntimePhase::Installed)
        } else {
            (RuntimeAction::Nothing, RuntimePhase::Installed)
        },
        RuntimePhase::Installed => match find_true(&f.installed_complete) {
            Some(i) => if !f.kept_complete {
                (RuntimeAction::CopyInstalledRuntime(i), RuntimePhase::InstalledCopied(i))
            } else {
                (RuntimeAction::Nothing, RuntimePhase::Embedded)
            },
            None => (RuntimeAction::Nothing, RuntimePhase::Embedded),
        },
        RuntimePhase::InstalledCopied(i) => if f.kept_complete {
            (RuntimeAction::MarkInstalled(i), RuntimePhase::Embedded)
        } else {
            (RuntimeAction::Nothing, RuntimePhase::Embedded)
        },
        RuntimePhase::Embedded => if f.kept_complete {
            (RuntimeAction::Nothing, RuntimePhase::Complete)
        } else if f.embedded {
            (RuntimeAction::RestoreEmbedded, RuntimePhase::Complete)
        } else {
            (RuntimeAction::Download, RuntimePhase::Complete)
        },
        RuntimePhase::Complete => if !f.kept_complete {
            (RuntimeAction::FailRuntime, RuntimePhase::Over)
        } else if !f.marked {
            (RuntimeAction::MarkExisting, RuntimePhase::Models)
        } else {
            (RuntimeAction::Nothing, RuntimePhase::Models)
        },
        RuntimePhase::Models => if !f.models_complete && f.resource_models_complete {
            (RuntimeAction::CopyResourceModels, RuntimePhase::InstalledModels)
        } else {
            (RuntimeAction::Nothing, RuntimePhase::InstalledModels)
        },
        RuntimePhase::InstalledModels => {
            let installed = find_true(&f.installed_models_complete).is_some();
            match find_true(&f.installed_models_exist) {
                Some(i) => if !installed {
                    (
                        RuntimeAction::CopyInstalledModels(i),
                        RuntimePhase::ModelsComplete(installed),
                    )
                } else {
                    (RuntimeAction::Nothing, RuntimePhase::ModelsComplete(installed))
                },
                None => (RuntimeAction::Nothing, RuntimePhase::ModelsComplete(installed)),
            }
        },
        RuntimePhase::ModelsComplete(installed) => if !f.models_complete && !installed {
            (RuntimeAction::FailModels, RuntimePhase::Over)
        } else {
            (RuntimeAction::Finish, RuntimePhase::Over)
        },
        RuntimePhase::Over => (RuntimeAction::Finish, RuntimePhase::Over),
    }
}

/// How many steps a phase is from the end at most.
pub open spec fn steps_left(phase: RuntimePhase) -> nat {
    match phase {
        RuntimePhase::Resource => 9,
        RuntimePhase::ResourceCopied => 8,
        RuntimePhase::Installed => 7,
        RuntimePhase::InstalledCopied(_) => 6,
        RuntimePhase::Embedded => 5,
        RuntimePhase::Complete => 4,
        RuntimePhase::Models => 3,
        RuntimePhase::InstalledModels => 2,
        RuntimePhase::ModelsComplete(_) => 1,
        RuntimePhase::Over => 0,
    }
}

/// Each step leads closer to the end, and the last one finishes or fails.
pub proof fn a_runtime_is_settled_in_the_end(phase: RuntimePhase, f: RuntimeFacts)
    requires
        !(phase is Over),
    ensures
        steps_left(runtime_next(phase, f).1) < steps_left(phase),
        runtime_next(phase, f).1 is Over == (runtime_next(phase, f).0 is Finish || runtime_next(
            phase,
            f,
        ).0 is FailRuntime || runtime_next(phase, f).0 is FailModels),
{
}

/// A runtime that is complete is neither copied over, nor restored, nor fetched, and does not
/// fail.
pub proof fn a_complete_runtime_is_left_alone(phase: RuntimePhase, f: RuntimeFacts)
    requires
        f.kept_complete,
    ensures
        !(runtime_next(phase, f).0 is CopyResourceRuntime),
        !(runtime_next(phase, f).0 is CopyInstalledRuntime),
        !(runtime_next(phase, f).0 is RestoreEmbedded),
        !(runtime_next(phase, f).0 is Download),
        !(runtime_next(phase, f).0 is FailRuntime),
{
}

/// The models are looked at only where the runtime is complete and, where it did not say so,
/// was made to.
pub proof fn only_a_complete_runtime_goes_on(phase: RuntimePhase, f: RuntimeFacts)
    requires
        runtime_next(phase, f).1 is Models,
    ensures
        f.kept_complete,
        f.marked || runtime_next(phase, f).0 is MarkExisting,
{
}

/// A file or a folder of what was unpacked: the names on the way to it, and what it is.
#[derive(Debug)]
pub struct UnpackedEntry {
    pub path: Vec<String>,
    pub is_dir: bool,
    pub is_file: bool,
}

/// A file or a folder of what was unpacked, as the contracts see it.
#[verifier::ext_equal]
pub struct Entry {
    pub path: Seq<Seq<char>>,
    pub is_dir: bool,
    pub is_file: bool,
}

impl View for UnpackedEntry {
    type V = Entry;

    open spec fn view(&self) -> Entry {
        Entry { path: strs::views(self.path@), is_dir: self.is_dir, is_file: self.is_file }
    }
}

/// What is looked for among what was unpacked.
#[derive(Debug, Clone, Copy)]
pub enum Wanted {
    File,
    Folder,
}

/// Whether an entry is a file or a folder of that name.
pub open spec fn is_named(e: Entry, wanted: Wanted, name: Seq<char>) -> bool {
    &&& e.path.len() > 0
    &&& e.path.last() == name
    &&& match wanted {
        Wanted::File => e.is_file,
        Wanted::Folder => e.is_dir,
    }
}

/// Whether an entry is a file or a folder of one of these names.
pub open spec fn is_one_of(e: Entry, wanted: Wanted, names: Seq<Seq<char>>) -> bool {
    exists|k: int| 0 <= k < names.len() && is_named(e, wanted, #[trigger] names[k])
}

/// The place of the first entry, from position `i` on, that is a file or a folder of one of these
/// names.
pub open spec fn first_of(entries: Seq<Entry>, wanted: Wanted, names: Seq<Seq<char>>, i: int) -> Option<
    Seq<Seq<char>>,
>
    decreases entries.len() - i,
{
    if i < 0 || i >= entries.len() {
        None
    } else if is_one_of(entries[i], wanted, names) {
        Some(entries[i].path)
    } else {
        first_of(entries, wanted, names, i + 1)
    }
}

proof fn lemma_first_of(entries: Seq<Entry>, wanted: Wanted, names: Seq<Seq<char>>, i: int)
    ensures
        first_of(entries, wanted, names, i) matches Some(p) ==> p.len() > 0,
    decreases entries.len() - i,
{
    if 0 <= i < entries.len() {
        lemma_first_of(entries, wanted, names, i + 1);
    }
}

/// The views of a place that may be missing.
pub open spec fn opt_place(v: Option<Vec<String>>) -> Option<Seq<Seq<char>>> {
    match v {
        Some(p) => Some(strs::views(p@)),
        None => None,
    }
}

fn entry_is_one_of(e: &UnpackedEntry, wanted: Wanted, names: &[&str]) -> (r: bool)
    ensures
        r == is_one_of(e@, wanted, strs::str_views(names@)),
{
    let n: usize = e.path.len();
    let fits = match wanted {
        Wanted::File => e.is_file,
        Wanted::Folder => e.is_dir,
    };
    if n == 0 || !fits {
        return false;
    }
    let ghost all = strs::str_views(names@);
    assert(e@.path.last() == e.path@[n - 1]@);
    let mut k: usize = 0;
    while k < names.len()
        invariant
            k <= names@.len(),
            all == strs::str_views(names@),
            n == e.path@.len(),
            n > 0,
            e@.path.last() == e.path@[n - 1]@,
            fits == match wanted {
                Wanted::File => e.is_file,
                Wanted::Folder => e.is_dir,
            },
            fits,
            forall|m: int| 0 <= m < k ==> !is_named(e@, wanted, #[trigger] all[m]),
        decreases names@.len() - k,
    {
        assert(all[k as int] == names@[k as int]@);
        if text::same(&e.path[n - 1], names[k]) {
            assert(is_named(e@, wanted, all[k as int]));
            return true;
        }
        k += 1;
    }
    false
}

fn find_entry(entries: &Vec<UnpackedEntry>, wanted: Wanted, names: &[&str]) -> (r: Option<Vec<String>>)
    ensures
        opt_place(r) == first_of(strs::deep(entries@), wanted, strs::str_views(names@), 0),
{
    let ghost all = strs::deep(entries@);
    let ghost these = strs::str_views(names@);
    let mut i: usize = 0;
    while i < entries.len()
        invariant
            i <= entries@.len(),
            all == strs::deep(entries@),
            these == strs::str_views(names@),
            first_of(all, wanted, these, 0) == first_of(all, wanted, these, i as int),
        decreases entries@.len() - i,
    {
        assert(all[i as int] == entries@[i as int]@);
        if entry_is_one_of(&entries[i], wanted, names) {
            return Some(text::copy_list(&entries[i].path));
        }
        i += 1;
    }
    None
}

/// Whether two paths are the same where upper and lower case are not told apart.
pub open spec fn same_path(a: Seq<Seq<char>>, b: Seq<Seq<char>>) -> bool {
    a.len() == b.len() && forall|i: int|
        0 <= i < a.len() ==> strs::ascii_lower(#[trigger] a[i]) == strs::ascii_lower(b[i])
}

/// Whether there is something at a place.
pub open spec fn stands(entries: Seq<Entry>, path: Seq<Seq<char>>) -> bool {
    exists|i: int| 0 <= i < entries.len() && same_path((#[trigger] entries[i]).path, path)
}

fn paths_are_same(a: &Vec<String>, b: &Vec<String>) -> (r: bool)
    ensures
        r == same_path(strs::views(a@), strs::views(b@)),
{
    if a.len() != b.len() {
        return false;
    }
    let ghost x = strs::views(a@);
    let ghost y = strs::views(b@);
    let mut i: usize = 0;
    while i < a.len()
        invariant
            i <= a@.len(),
            a@.len() == b@.len(),
            x == strs::views(a@),
            y == strs::views(b@),
            forall|j: int| 0 <= j < i ==> strs::ascii_lower(#[trigger] x[j]) == strs::ascii_lower(y[j]),
        decreases a@.len() - i,
    {
        let p = text::ascii_lower(&a[i]);
        let q = text::ascii_lower(&b[i]);
        assert(x[i as int] == a@[i as int]@);
        assert(y[i as int] == b@[i as int]@);
        if !text::same(&p, &q) {
            return false;
        }
        i += 1;
    }
    true
}

fn there_is(entries: &Vec<UnpackedEntry>, path: &Vec<String>) -> (r: bool)
    ensures
        r == stands(strs::deep(entries@), strs::views(path@)),
{
    let ghost all = strs::deep(entries@);
    let mut i: usize = 0;
    while i < entries.len()
        invariant
            i <= entries@.len(),
            all == strs::deep(entries@),
            forall|j: int|
                0 <= j < i ==> !same_path((#[trigger] all[j]).path, strs::views(path@)),
        decreases entries@.len() - i,
    {
        assert(all[i as int] == entries@[i as int]@);
        if paths_are_same(&entries[i].path, path) {
            return true;
        }
        i += 1;
    }
    false
}

/// What is taken out of a release: the program, its runtime and its models, and the folder that
/// holds the two.
#[derive(Debug)]
pub struct ExtractedRelease {
    pub program: Vec<String>,
    pub runtime: Option<Vec<String>>,
    pub resources: Option<Vec<String>>,
    pub support: Option<Vec<String>>,
}

/// What is taken out of a release, as the contracts see it.
#[verifier::ext_equal]
pub struct Extracted {
    pub program: Seq<Seq<char>>,
    pub runtime: Option<Seq<Seq<char>>>,
    pub resources: Option<Seq<Seq<char>>>,
    pub support: Option<Seq<Seq<char>>>,
}

impl View for ExtractedRelease {
    type V = Extracted;

    open spec fn view(&self) -> Extracted {
        Extracted {
            program: strs::views(self.program@),
            runtime: opt_place(self.runtime),
            resources: opt_place(self.resources),
            support: opt_place(self.support),
        }
    }
}

/// The folder of a release that holds the runtime and the models: that which has the name, or that
/// in which a runtime stands.
pub open spec fn support_place(entries: Seq<Entry>) -> Option<Seq<Seq<char>>> {
    let named = first_of(entries, Wanted::Folder, seq![WINDOWS_BUNDLE_SUPPORT_DIR_NAME@], 0);
    if named is Some {
        named
    } else {
        match first_of(entries, Wanted::Folder, seq!["runtime"@, "sidecar"@], 0) {
            Some(p) => Some(p.drop_last()),
            None => None,
        }
    }
}

/// The runtime below a folder.
pub open spec fn runtime_place(entries: Seq<Entry>, support: Seq<Seq<char>>) -> Option<
    Seq<Seq<char>>,
> {
    if stands(entries, support.push("runtime"@)) {
        Some(support.push("runtime"@))
    } else if stands(entries, support.push("sidecar"@)) {
        Some(support.push("sidecar"@))
    } else {
        None
    }
}

/// The models below a folder.
pub open spec fn resources_place(entries: Seq<Entry>, support: Seq<Seq<char>>) -> Option<
    Seq<Seq<char>>,
> {
    if stands(entries, support.push("resources"@).push("models"@)) {
        Some(support.push("resources"@).push("models"@))
    } else if stands(entries, support.push("models"@)) {
        Some(support.push("models"@))
    } else if stands(entries, support.push("resources"@)) {
        Some(support.push("resources"@))
    } else {
        None
    }
}

/// The first of these files that is missing in a folder, from position `i` on.
pub open spec fn first_missing(
    entries: Seq<Entry>,
    dir: Seq<Seq<char>>,
    names: Seq<Seq<char>>,
    i: int,
) -> Option<Seq<char>>
    decreases names.len() - i,
{
    if i < 0 || i >= names.len() {
        None
    } else if stands(entries, dir.push(names[i])) {
        first_missing(entries, dir, names, i + 1)
    } else {
        Some(names[i])
    }
}

/// What is taken out of a release, or what it lacks.
pub open spec fn extracted(entries: Seq<Entry>) -> Result<Extracted, Seq<char>> {
    match first_of(entries, Wanted::File, seq![PROGRAM_FILENAME@], 0) {
        None => Err("업데이트 압축 파일 안에 roosycozy.exe가 없어요."@),
        Some(program) => match support_place(entries) {
            None => Ok(Extracted { program, runtime: None, resources: None, support: None }),
            Some(support) => {
                let runtime = runtime_place(entries, support);
                let library = match runtime {
                    Some(dir) => first_missing(entries, dir, sidecar_files(), 0),
                    None => None,
                };
                let server = match runtime {
                    Some(dir) => first_missing(entries, dir, server_files(), 0),
                    None => None,
                };
                match (library, server) {
                    (Some(name), _) => Err(
                        ("업데이트 압축 파일 안에 필요한 resident runtime 파일이 빠져 있어요: "@ + name),
                    ),
                    (None, Some(name)) => Err(
                        ("업데이트 압축 파일 안에 resident 서버 파일이 빠져 있어요: "@ + name),
                    ),
                    (None, None) => Ok(
                        Extracted {
                            program,
                            runtime,
                            resources: resources_place(entries, support),
                            support: Some(support),
                        },
                    ),
                }
            },
        },
    }
}

fn below(dir: &Vec<String>, name: &str) -> (r: Vec<String>)
    ensures
        strs::views(r@) == strs::views(dir@).push(name@),
{
    let mut r = text::copy_list(dir);
    text::push(&mut r, text::copy(name));
    r
}

fn find_support(entries: &Vec<UnpackedEntry>) -> (r: Option<Vec<String>>)
    ensures
        opt_place(r) == support_place(strs::deep(entries@)),
{
    let named = find_entry(entries, Wanted::Folder, &[WINDOWS_BUNDLE_SUPPORT_DIR_NAME]);
    assert(strs::str_views([WINDOWS_BUNDLE_SUPPORT_DIR_NAME]@) =~= seq![
        WINDOWS_BUNDLE_SUPPORT_DIR_NAME@,
    ]);
    if named.is_some() {
        return named;
    }
    let inner = find_entry(entries, Wanted::Folder, &["runtime", "sidecar"]);
    assert(strs::str_views(["runtime", "sidecar"]@) =~= seq!["runtime"@, "sidecar"@]);
    proof {
        lemma_first_of(strs::deep(entries@), Wanted::Folder, seq!["runtime"@, "sidecar"@], 0);
    }
    match inner {
        Some(mut path) => {
            let ghost whole = strs::views(path@);
            path.pop();
            assert(strs::views(path@) =~= whole.drop_last());
            Some(path)
        },
        None => None,
    }
}

fn find_runtime(entries: &Vec<UnpackedEntry>, support: &Vec<String>) -> (r: Option<Vec<String>>)
    ensures
        opt_place(r) == runtime_place(strs::deep(entries@), strs::views(support@)),
{
    let first = below(support, "runtime");
    if there_is(entries, &first) {
        return Some(first);
    }
    let second = below(support, "sidecar");
    if there_is(entries, &second) {
        return Some(second);
    }
    None
}

fn find_resources(entries: &Vec<UnpackedEntry>, support: &Vec<String>) -> (r: Option<Vec<String>>)
    ensures
        opt_place(r) == resources_place(strs::deep(entries@), strs::views(support@)),
{
    let resources = below(support, "resources");
    let bundled = below(&resources, "models");
    let direct = below(support, "models");
    if there_is(entries, &bundled) {
        Some(bundled)
    } else if there_is(entries, &direct) {
        Some(direct)
    } else if there_is(entries, &resources) {
        Some(resources)
    } else {
        None
    }
}

fn find_missing(entries: &Vec<UnpackedEntry>, dir: &Vec<String>, names: &Vec<String>) -> (r: Option<
    String,
>)
    ensures
        strs::opt_view(r) == first_missing(
            strs::deep(entries@),
            strs::views(dir@),
            strs::views(names@),
            0,
        ),
{
    let ghost all = strs::deep(entries@);
    let ghost place = strs::views(dir@);
    let ghost wanted = strs::views(names@);
    let mut i: usize = 0;
    while i < names.len()
        invariant
            i <= names@.len(),
            all == strs::deep(entries@),
            place == strs::views(dir@),
            wanted == strs::views(names@),
            first_missing(all, place, wanted, 0) == first_missing(all, place, wanted, i as int),
        decreases names@.len() - i,
    {
        assert(wanted[i as int] == names@[i as int]@);
        let path = below(dir, &names[i]);
        if !there_is(entries, &path) {
            return Some(text::copy(&names[i]));
        }
        i += 1;
    }
    None
}

/// What is taken out of a release, or what it lacks. The entries come with each folder before what
/// stands in it.
pub fn validate_extracted_release(entries: &Vec<UnpackedEntry>) -> (r: Result<
    ExtractedRelease,
    String,
>)
    ensures
        match r {
            Ok(found) => extracted(strs::deep(entries@)) == Ok::<Extracted, Seq<char>>(found@),
            Err(message) => extracted(strs::deep(entries@)) == Err::<Extracted, Seq<char>>(
                message@,
            ),
        },
{
    let ghost all = strs::deep(entries@);
    let exe = find_entry(entries, Wanted::File, &[PROGRAM_FILENAME]);
    assert(strs::str_views([PROGRAM_FILENAME]@) =~= seq![PROGRAM_FILENAME@]);
    let program = match exe {
        Some(path) => path,
        None => {
            return Err(text::copy("업데이트 압축 파일 안에 roosycozy.exe가 없어요."));
        },
    };
    let support = match find_support(entries) {
        Some(path) => path,
        None => {
            let found = ExtractedRelease { program, runtime: None, resources: None, support: None };
            assert(found@ =~= extracted(all)->Ok_0);
            return Ok(found);
        },
    };
    let runtime = find_runtime(entries, &support);
    if let Some(dir) = &runtime {
        if let Some(name) = find_missing(entries, dir, &windows_sidecar_required_files()) {
            let mut message = text::copy("업데이트 압축 파일 안에 필요한 resident runtime 파일이 빠져 있어요: ");
            message.append(&name);
            return Err(message);
        }
        if let Some(name) = find_missing(entries, dir, &windows_resident_server_required_files()) {
            let mut message = text::copy("업데이트 압축 파일 안에 resident 서버 파일이 빠져 있어요: ");
            message.append(&name);
            return Err(message);
        }
    }
    let resources = find_resources(entries, &support);
    let found = ExtractedRelease { program, runtime, resources, support: Some(support) };
    assert(found@ =~= extracted(all)->Ok_0);
    Ok(found)
}

proof fn lemma_nothing_missing(
    entries: Seq<Entry>,
    dir: Seq<Seq<char>>,
    names: Seq<Seq<char>>,
    i: int,
    j: int,
)
    requires
        0 <= i <= j < names.len(),
        first_missing(entries, dir, names, i) is None,
    ensures
        stands(entries, dir.push(names[j])),
    decreases j - i,
{
    if i < j {
        lemma_nothing_missing(entries, dir, names, i + 1, j);
    }
}

/// A runtime that is taken out of a release has its libraries and its server.
pub proof fn a_taken_runtime_is_whole(entries: Seq<Entry>, j: int)
    requires
        extracted(entries) is Ok,
        extracted(entries)->Ok_0.runtime is Some,
    ensures
        0 <= j < sidecar_files().len() ==> stands(
            entries,
            extracted(entries)->Ok_0.runtime->0.push(sidecar_files()[j]),
        ),
        0 <= j < server_files().len() ==> stands(
            entries,
            extracted(entries)->Ok_0.runtime->0.push(server_files()[j]),
        ),
{
    let dir = extracted(entries)->Ok_0.runtime->0;
    if 0 <= j < sidecar_files().len() {
        lemma_nothing_missing(entries, dir, sidecar_files(), 0, j);
    }
    if 0 <= j < server_files().len() {
        lemma_nothing_missing(entries, dir, server_files(), 0, j);
    }
}

/// Where an unpacked runtime came from.
#[derive(Debug, Clone, Copy)]
pub enum RuntimeOrigin {
    Downloaded,
    Embedded,
}

/// What is taken out of an unpacked runtime: its server and its libraries.
#[derive(Debug)]
pub struct RuntimePieces {
    pub server: Vec<String>,
    pub libraries: Vec<Vec<String>>,
}

/// The server among what was unpacked.
pub open spec fn server_place(entries: Seq<Entry>) -> Option<Seq<Seq<char>>> {
    let named = first_of(entries, Wanted::File, seq!["llama-server.exe"@], 0);
    if named is Some {
        named
    } else {
        first_of(entries, Wanted::File, seq!["llama-server"@], 0)
    }
}

/// Whether an entry is a library.
pub open spec fn is_library(e: Entry) -> bool {
    &&& !e.is_dir
    &&& e.path.len() > 0
    &&& match state::extension(e.path.last()) {
        Some(ext) => strs::ascii_lower(ext) == "dll"@,
        None => false,
    }
}

/// The places of the libraries among what was unpacked.
pub open spec fn library_places(entries: Seq<Entry>) -> Seq<Seq<Seq<char>>> {
    strs::keep(entries, |e: Entry| is_library(e)).map_values(|e: Entry| e.path)
}

/// The libraries that an unpacked runtime has to hold.
pub open spec fn needed_libraries() -> Seq<Seq<char>> {
    seq!["mtmd.dll"@] + msvc_files()
}

/// The names at the ends of places.
pub open spec fn last_names(places: Seq<Seq<Seq<char>>>) -> Seq<Seq<char>> {
    places.map_values(|p: Seq<Seq<char>>| p.last())
}

/// What is said where an unpacked runtime has no server.
pub open spec fn no_server_text(origin: RuntimeOrigin) -> Seq<char> {
    match origin {
        RuntimeOrigin::Downloaded => "다운로드한 AI 런타임 안에서 llama-server.exe를 찾지 못했어요."@,
        RuntimeOrigin::Embedded => "실행파일에 포함된 runtime 안에서 llama-server.exe를 찾지 못했어요."@,
    }
}

/// What is said where an unpacked runtime lacks a library.
pub open spec fn no_library_text(origin: RuntimeOrigin, name: Seq<char>) -> Seq<char> {
    match origin {
        RuntimeOrigin::Downloaded => ("다운로드한 AI 런타임 안에 필요한 DLL이 빠져 있어요: "@ + name),
        RuntimeOrigin::Embedded => ("실행파일에 포함된 runtime 안에 필요한 DLL이 빠져 있어요: "@ + name),
    }
}

fn entry_is_library(e: &UnpackedEntry) -> (r: bool)
    ensures
        r == is_library(e@),
{
    let n: usize = e.path.len();
    if e.is_dir || n == 0 {
        return false;
    }
    assert(e@.path.last() == e.path@[n - 1]@);
    match extension_of(&e.path[n - 1]) {
        Some(ext) => {
            let lower = text::ascii_lower(&ext);
            text::same(&lower, "dll")
        },
        None => false,
    }
}

/// The views of a list of places.
pub open spec fn place_views(v: Seq<Vec<String>>) -> Seq<Seq<Seq<char>>> {
    v.map_values(|p: Vec<String>| strs::views(p@))
}

/// The places of the libraries among what was unpacked.
pub fn collect_runtime_dlls(entries: &Vec<UnpackedEntry>) -> (r: Vec<Vec<String>>)
    ensures
        place_views(r@) == library_places(strs::deep(entries@)),
{
    let ghost all = strs::deep(entries@);
    let mut out: Vec<Vec<String>> = Vec::new();
    let mut i: usize = 0;
    assert(all.take(0) =~= Seq::empty());
    assert(place_views(out@) =~= library_places(all.take(0)));
    while i < entries.len()
        invariant
            i <= entries@.len(),
            all == strs::deep(entries@),
            place_views(out@) == library_places(all.take(i as int)),
        decreases entries@.len() - i,
    {
        let ghost before = place_views(out@);
        assert(all.take(i + 1).drop_last() =~= all.take(i as int));
        assert(all[i as int] == entries@[i as int]@);
        if entry_is_library(&entries[i]) {
            let path = text::copy_list(&entries[i].path);
            let ghost seen = strs::views(path@);
            out.push(path);
            assert(place_views(out@) =~= before.push(seen));
            assert(place_views(out@) =~= library_places(all.take(i + 1)));
        }
        i += 1;
    }
    assert(all.take(i as int) =~= all);
    out
}

fn names_of(places: &Vec<Vec<String>>) -> (r: Vec<String>)
    requires
        forall|i: int| 0 <= i < places@.len() ==> (#[trigger] places@[i])@.len() > 0,
    ensures
        strs::views(r@) == last_names(place_views(places@)),
{
    let ghost all = last_names(place_views(places@));
    let mut out = text::no_texts();
    let mut i: usize = 0;
    assert(strs::views(out@) =~= all.take(0));
    while i < places.len()
        invariant
            i <= places@.len(),
            all == last_names(place_views(places@)),
            forall|k: int| 0 <= k < places@.len() ==> (#[trigger] places@[k])@.len() > 0,
            strs::views(out@) == all.take(i as int),
        decreases places@.len() - i,
    {
        assert(places@[i as int]@.len() > 0);
        let n: usize = places[i].len();
        assert(all[i as int] == places@[i as int]@[n - 1]@);
        text::push(&mut out, text::copy(&places[i][n - 1]));
        assert(all.take(i as int).push(all[i as int]) =~= all.take(i + 1));
        i += 1;
    }
    assert(all.take(i as int) =~= all);
    out
}

proof fn lemma_library_places(entries: Seq<Entry>)
    ensures
        forall|i: int|
            0 <= i < library_places(entries).len() ==> (#[trigger] library_places(
                entries,
            )[i]).len() > 0,
    decreases entries.len(),
{
    let kept = strs::keep(entries, |e: Entry| is_library(e));
    if entries.len() > 0 {
        lemma_library_places(entries.drop_last());
        let before = strs::keep(entries.drop_last(), |e: Entry| is_library(e));
        assert forall|i: int| 0 <= i < library_places(entries).len() implies (
        #[trigger] library_places(entries)[i]).len() > 0 by {
            if i < before.len() {
                assert(library_places(entries)[i] == library_places(entries.drop_last())[i]);
            }
        }
    }
}

/// What is taken out of an unpacked runtime, or what it lacks. The entries come with each folder
/// before what stands in it.
pub fn runtime_pieces(entries: &Vec<UnpackedEntry>, origin: RuntimeOrigin) -> (r: Result<
    RuntimePieces,
    String,
>)
    ensures
        ({
            let all = strs::deep(entries@);
            let names = last_names(library_places(all));
            match r {
                Ok(pieces) => {
                    &&& server_place(all) == Some(strs::views(pieces.server@))
                    &&& place_views(pieces.libraries@) == library_places(all)
                    &&& all_listed(needed_libraries(), names)
                },
                Err(message) => if server_place(all) is None {
                    message@ == no_server_text(origin)
                } else {
                    first_unlisted(needed_libraries(), names, 0) matches Some(name) && message@
                        == no_library_text(origin, name)
                },
            }
        }),
{
    let ghost all = strs::deep(entries@);
    let first = find_entry(entries, Wanted::File, &["llama-server.exe"]);
    assert(strs::str_views(["llama-server.exe"]@) =~= seq!["llama-server.exe"@]);
    let found = if first.is_some() {
        first
    } else {
        let second = find_entry(entries, Wanted::File, &["llama-server"]);
        assert(strs::str_views(["llama-server"]@) =~= seq!["llama-server"@]);
        second
    };
    assert(opt_place(found) == server_place(all));
    let server = match found {
        Some(path) => path,
        None => {
            return Err(
                match origin {
                    RuntimeOrigin::Downloaded => text::copy(
                        "다운로드한 AI 런타임 안에서 llama-server.exe를 찾지 못했어요.",
                    ),
                    RuntimeOrigin::Embedded => text::copy(
                        "실행파일에 포함된 runtime 안에서 llama-server.exe를 찾지 못했어요.",
                    ),
                },
            );
        },
    };
    let libraries = collect_runtime_dlls(entries);
    proof {
        lemma_library_places(all);
        assert forall|i: int| 0 <= i < libraries@.len() implies (#[trigger] libraries@[i])@.len()
            > 0 by {
            assert(place_views(libraries@)[i] == strs::views(libraries@[i]@));
            assert(library_places(all)[i].len() > 0);
        }
    }
    let names = names_of(&libraries);
    let mut needed = text::owned(&["mtmd.dll"]);
    assert(strs::views(needed@) =~= seq!["mtmd.dll"@]);
    text::push_all(&mut needed, &windows_msvc_runtime_files());
    match find_unlisted(&needed, &names) {
        Some(name) => {
            match origin {
                RuntimeOrigin::Downloaded => {
                    let mut message = text::copy("다운로드한 AI 런타임 안에 필요한 DLL이 빠져 있어요: ");
                    message.append(&name);
                    Err(message)
                },
                RuntimeOrigin::Embedded => {
                    let mut message = text::copy("실행파일에 포함된 runtime 안에 필요한 DLL이 빠져 있어요: ");
                    message.append(&name);
                    Err(message)
                },
            }
        },
        None => Ok(RuntimePieces { server, libraries }),
    }
}

} // verus!
