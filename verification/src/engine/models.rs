//! The models: their names, files and places, and what their runtimes print.

use crate::strs;
use crate::text;
use vstd::prelude::*;

verus! {

/// The model that is used where no other is asked for.
pub const STRATEGY_MODEL_DEFAULT_ID: &'static str = "hyperclova-x";

/// The model that was trained on the records.
pub const STRATEGY_MODEL_ROOSY_ID: &'static str = "roosy-x";

/// Both models, one after the other.
pub const STRATEGY_MODEL_HYBRID_ID: &'static str = "roosy-hybrid";

/// The file of the default model.
pub const STRATEGY_MODEL_FILENAME: &'static str = "HyperCLOVAX-SEED-Text-Instruct-0.5B-q4_0.gguf";

/// The default model among the resources.
pub const STRATEGY_MODEL_RESOURCE_PATH: &'static str =
    "models/HyperCLOVAX-SEED-Text-Instruct-0.5B-q4_0.gguf";

/// The file of the trained model.
pub const STRATEGY_MODEL_ROOSY_FILENAME: &'static str = "hyperclovax_roosy_Q4_K_M.gguf";

/// The trained model among the resources.
pub const STRATEGY_MODEL_ROOSY_RESOURCE_PATH: &'static str = "models/hyperclovax_roosy_Q4_K_M.gguf";

/// Where the default model comes from.
pub const STRATEGY_MODEL_DEFAULT_URL: &'static str =
    "https://github.com/myongsung/roosycozy-models/releases/download/model_v1/HyperCLOVAX-SEED-Text-Instruct-0.5B-q4_0.gguf";

/// Where the trained model comes from.
pub const STRATEGY_MODEL_ROOSY_DEFAULT_URL: &'static str =
    "https://github.com/myongsung/roosycozy-models2/releases/download/model/hyperclovax_roosy_Q4_K_M.gguf";

/// The program that runs a model once.
pub const STRATEGY_SIDECAR_STEM: &'static str = "llama-sidecar";

/// The program that keeps a model running.
pub const STRATEGY_LLAMA_SERVER_STEM: &'static str = "llama-server";

/// How long a model may take, in seconds.
pub const STRATEGY_CHAT_TIMEOUT_SECS: u64 = 90;

/// The model that is meant by a name.
pub open spec fn model_named(raw: Option<Seq<char>>) -> Seq<char> {
    match raw {
        Some(s) => {
            let name = strs::ascii_lower(strs::trim(s));
            if name == STRATEGY_MODEL_HYBRID_ID@ {
                STRATEGY_MODEL_HYBRID_ID@
            } else if name == STRATEGY_MODEL_ROOSY_ID@ {
                STRATEGY_MODEL_ROOSY_ID@
            } else {
                STRATEGY_MODEL_DEFAULT_ID@
            }
        },
        None => STRATEGY_MODEL_DEFAULT_ID@,
    }
}


/// The model that is meant by a name.
pub fn normalize_strategy_model_id(raw: Option<&str>) -> (r: &'static str)
    ensures
        r@ == model_named(strs::opt_str(raw)),
{
    match raw {
        Some(s) => {
            let name = text::ascii_lower(&text::trim(s));
            if text::same(&name, STRATEGY_MODEL_HYBRID_ID) {
                STRATEGY_MODEL_HYBRID_ID
            } else if text::same(&name, STRATEGY_MODEL_ROOSY_ID) {
                STRATEGY_MODEL_ROOSY_ID
            } else {
                STRATEGY_MODEL_DEFAULT_ID
            }
        },
        None => STRATEGY_MODEL_DEFAULT_ID,
    }
}

/// The file of a model.
pub open spec fn model_file(id: Seq<char>) -> Seq<char> {
    if model_named(Some(id)) == STRATEGY_MODEL_ROOSY_ID@ {
        STRATEGY_MODEL_ROOSY_FILENAME@
    } else {
        STRATEGY_MODEL_FILENAME@
    }
}

/// The file of a model.
pub fn strategy_model_filename_for_id(model_id: &str) -> (r: &'static str)
    ensures
        r@ == model_file(model_id@),
{
    if text::same(normalize_strategy_model_id(Some(model_id)), STRATEGY_MODEL_ROOSY_ID) {
        STRATEGY_MODEL_ROOSY_FILENAME
    } else {
        STRATEGY_MODEL_FILENAME
    }
}

/// A model among the resources.
pub fn strategy_model_resource_path_for_id(model_id: &str) -> (r: &'static str)
    ensures
        r@ == if model_named(Some(model_id@)) == STRATEGY_MODEL_ROOSY_ID@ {
            STRATEGY_MODEL_ROOSY_RESOURCE_PATH@
        } else {
            STRATEGY_MODEL_RESOURCE_PATH@
        },
{
    if text::same(normalize_strategy_model_id(Some(model_id)), STRATEGY_MODEL_ROOSY_ID) {
        STRATEGY_MODEL_ROOSY_RESOURCE_PATH
    } else {
        STRATEGY_MODEL_RESOURCE_PATH
    }
}

/// The name of a model for people.
pub open spec fn model_label(id: Seq<char>) -> Seq<char> {
    let name = model_named(Some(id));
    if name == STRATEGY_MODEL_HYBRID_ID@ {
        "ROOSY-Hybrid"@
    } else if name == STRATEGY_MODEL_ROOSY_ID@ {
        "Roosy-X"@
    } else {
        "HyperCLOVA-X"@
    }
}

/// The name of a model for people.
pub fn strategy_model_label_for_id(model_id: &str) -> (r: &'static str)
    ensures
        r@ == model_label(model_id@),
{
    let name = normalize_strategy_model_id(Some(model_id));
    if text::same(name, STRATEGY_MODEL_HYBRID_ID) {
        "ROOSY-Hybrid"
    } else if text::same(name, STRATEGY_MODEL_ROOSY_ID) {
        "Roosy-X"
    } else {
        "HyperCLOVA-X"
    }
}

/// Naming a model by the name that was found for it finds it again.
pub proof fn models_keep_their_names(raw: Option<Seq<char>>)
    ensures
        model_named(Some(model_named(raw))) == model_named(raw),
{
    reveal_strlit("roosy-hybrid");
    reveal_strlit("roosy-x");
    reveal_strlit("hyperclova-x");
    text::lemma_trim_keeps("roosy-hybrid"@);
    text::lemma_trim_keeps("roosy-x"@);
    text::lemma_trim_keeps("hyperclova-x"@);
    assert(strs::ascii_lower("roosy-hybrid"@) =~= "roosy-hybrid"@);
    assert(strs::ascii_lower("roosy-x"@) =~= "roosy-x"@);
    assert(strs::ascii_lower("hyperclova-x"@) =~= "hyperclova-x"@);
    assert("hyperclova-x"@[0] == 'h');
    assert("roosy-hybrid"@[0] == 'r');
    assert("roosy-x"@[0] == 'r');
}

/// The file of a program on a system.
pub open spec fn program_file(stem: Seq<char>, os: Seq<char>, arch: Seq<char>) -> Seq<char> {
    if os == "macos"@ && arch == "aarch64"@ {
        stem + "-aarch64-apple-darwin"@
    } else if os == "macos"@ && arch == "x86_64"@ {
        stem + "-x86_64-apple-darwin"@
    } else if os == "windows"@ && arch == "x86_64"@ {
        stem + "-x86_64-pc-windows-msvc.exe"@
    } else if os == "linux"@ && arch == "x86_64"@ {
        stem + "-x86_64-unknown-linux-gnu"@
    } else if os == "linux"@ && arch == "aarch64"@ {
        stem + "-aarch64-unknown-linux-gnu"@
    } else {
        stem
    }
}

/// The file of a program on any system of the kind.
pub open spec fn generic_file(stem: Seq<char>, os: Seq<char>) -> Seq<char> {
    if os == "windows"@ {
        stem + ".exe"@
    } else {
        stem
    }
}

/// The files that a program may be in.
pub open spec fn program_files(stem: Seq<char>, os: Seq<char>, arch: Seq<char>) -> Seq<Seq<char>> {
    let own = program_file(stem, os, arch);
    let generic = generic_file(stem, os);
    if own == generic {
        seq![own]
    } else {
        seq![own, generic]
    }
}

fn program_filename(stem: &str, os: &str, arch: &str) -> (r: String)
    ensures
        r@ == program_file(stem@, os@, arch@),
{
    let mut out = stem.to_owned();
    if text::same(os, "macos") && text::same(arch, "aarch64") {
        out.append("-aarch64-apple-darwin");
    } else if text::same(os, "macos") && text::same(arch, "x86_64") {
        out.append("-x86_64-apple-darwin");
    } else if text::same(os, "windows") && text::same(arch, "x86_64") {
        out.append("-x86_64-pc-windows-msvc.exe");
    } else if text::same(os, "linux") && text::same(arch, "x86_64") {
        out.append("-x86_64-unknown-linux-gnu");
    } else if text::same(os, "linux") && text::same(arch, "aarch64") {
        out.append("-aarch64-unknown-linux-gnu");
    }
    out
}

fn generic_filename(stem: &str, os: &str) -> (r: String)
    ensures
        r@ == generic_file(stem@, os@),
{
    let mut out = stem.to_owned();
    if text::same(os, "windows") {
        out.append(".exe");
    }
    out
}

/// The files that a program may be in.
pub fn program_filenames(stem: &str, os: &str, arch: &str) -> (r: Vec<String>)
    ensures
        strs::views(r@) == program_files(stem@, os@, arch@),
{
    let own = program_filename(stem, os, arch);
    let generic = generic_filename(stem, os);
    let same = text::same(&own, &generic);
    let mut out = text::no_texts();
    text::push(&mut out, own);
    if !same {
        text::push(&mut out, generic);
    }
    assert(strs::views(out@) =~= program_files(stem@, os@, arch@));
    out
}

/// The files that the program that runs a model once may be in.
pub fn strategy_runner_filenames(os: &str, arch: &str) -> (r: Vec<String>)
    ensures
        strs::views(r@) == program_files(STRATEGY_SIDECAR_STEM@, os@, arch@),
{
    program_filenames(STRATEGY_SIDECAR_STEM, os, arch)
}

/// The files that the program that keeps a model running may be in.
pub fn strategy_llama_server_filenames(os: &str, arch: &str) -> (r: Vec<String>)
    ensures
        strs::views(r@) == program_files(STRATEGY_LLAMA_SERVER_STEM@, os@, arch@),
{
    program_filenames(STRATEGY_LLAMA_SERVER_STEM, os, arch)
}

/// What the program that runs a model once is called, for people.
pub open spec fn runner_hint(os: Seq<char>, arch: Seq<char>) -> Seq<char> {
    let own = program_file(STRATEGY_SIDECAR_STEM@, os, arch);
    let generic = generic_file(STRATEGY_SIDECAR_STEM@, os);
    if own == generic {
        own + " 파일"@
    } else {
        (own + " 또는 "@ + generic + " 파일"@)
    }
}

/// What the program that runs a model once is called, for people.
pub fn strategy_runner_hint_text(os: &str, arch: &str) -> (r: String)
    ensures
        r@ == runner_hint(os@, arch@),
{
    let own = program_filename(STRATEGY_SIDECAR_STEM, os, arch);
    let generic = generic_filename(STRATEGY_SIDECAR_STEM, os);
    if text::same(&own, &generic) {
        let mut out = own;
        out.append(" 파일");
        return out;
    }
    let mut out = text::copy(&own);
    out.append(" 또는 ");
    out.append(&generic);
    out.append(" 파일");
    out
}

/// A place in the file system: a folder and the names below it.
pub open spec fn place(dir: Seq<char>, names: Seq<Seq<char>>) -> Seq<Seq<char>> {
    seq![dir] + names
}

/// The views of a list of places.
pub open spec fn places(v: Seq<Vec<String>>) -> Seq<Seq<Seq<char>>> {
    v.map_values(|p: Vec<String>| strs::views(p@))
}

/// Puts a place behind the others, where it is not among them.
fn push_unique_path(out: &mut Vec<Vec<String>>, path: Vec<String>)
    ensures
        places(final(out)@) == strs::with_new(places(old(out)@), strs::views(path@)),
{
    let ghost all = places(out@);
    let mut known = false;
    let mut i: usize = 0;
    while i < out.len() && !known
        invariant
            i <= out@.len(),
            all == places(out@),
            known ==> all.contains(strs::views(path@)),
            !known ==> forall|j: int| 0 <= j < i ==> all[j] != strs::views(path@),
        decreases out@.len() - i + (if known { 0int } else { 1int }),
    {
        assert(all[i as int] == strs::views(out@[i as int]@));
        if same_place(&out[i], &path) {
            known = true;
        } else {
            i += 1;
        }
    }
    if !known {
        out.push(path);
        assert(places(out@) =~= all.push(strs::views(path@)));
    }
}

pub(crate) fn same_place(a: &Vec<String>, b: &Vec<String>) -> (r: bool)
    ensures
        r == (strs::views(a@) == strs::views(b@)),
{
    let ghost x = strs::views(a@);
    let ghost y = strs::views(b@);
    if a.len() != b.len() {
        assert(x.len() != y.len());
        return false;
    }
    let mut i: usize = 0;
    while i < a.len()
        invariant
            i <= a@.len(),
            a@.len() == b@.len(),
            x == strs::views(a@),
            y == strs::views(b@),
            forall|j: int| 0 <= j < i ==> x[j] == y[j],
        decreases a@.len() - i,
    {
        if !text::same(&a[i], &b[i]) {
            assert(x[i as int] != y[i as int]);
            return false;
        }
        assert(x[i as int] == a@[i as int]@ && y[i as int] == b@[i as int]@);
        i += 1;
    }
    assert(x =~= y);
    true
}

/// A list of places, with that of each file below a folder behind it.
pub open spec fn with_files(
    list: Seq<Seq<Seq<char>>>,
    dir: Seq<char>,
    below: Seq<Seq<char>>,
    files: Seq<Seq<char>>,
) -> Seq<Seq<Seq<char>>>
    decreases files.len(),
{
    if files.len() == 0 {
        list
    } else {
        strs::with_new(
            with_files(list, dir, below, files.drop_last()),
            place(dir, below.push(files.last())),
        )
    }
}

fn push_files(out: &mut Vec<Vec<String>>, dir: &str, below: &Vec<String>, files: &Vec<String>)
    ensures
        places(final(out)@) == with_files(
            places(old(out)@),
            dir@,
            strs::views(below@),
            strs::views(files@),
        ),
{
    let ghost all = strs::views(files@);
    let ghost before = places(out@);
    let mut i: usize = 0;
    assert(all.take(0) =~= Seq::empty());
    while i < files.len()
        invariant
            i <= files@.len(),
            all == strs::views(files@),
            places(out@) == with_files(before, dir@, strs::views(below@), all.take(i as int)),
        decreases files@.len() - i,
    {
        assert(all.take(i + 1).drop_last() =~= all.take(i as int));
        let mut path = text::no_texts();
        text::push(&mut path, dir.to_owned());
        text::push_all(&mut path, below);
        text::push(&mut path, files[i].clone());
        assert(strs::views(path@) =~= place(dir@, strs::views(below@).push(files@[i as int]@)));
        push_unique_path(out, path);
        i += 1;
    }
    assert(all.take(i as int) =~= all);
}

/// A list of places, with those of each file in each of the folders behind it.
pub open spec fn with_dirs(
    list: Seq<Seq<Seq<char>>>,
    dirs: Seq<Seq<char>>,
    files: Seq<Seq<char>>,
) -> Seq<Seq<Seq<char>>>
    decreases dirs.len(),
{
    if dirs.len() == 0 {
        list
    } else {
        with_files(with_dirs(list, dirs.drop_last(), files), dirs.last(), Seq::empty(), files)
    }
}

/// Where programs are looked for.
#[derive(Debug, Clone)]
pub struct ProgramSearch {
    /// The place that was named outright.
    pub explicit: Option<String>,
    /// The folder that programs are put in.
    pub storage_dir: Option<String>,
    /// The folder of the running program.
    pub program_dir: Option<String>,
    /// The folder of the sources, while they are worked on.
    pub source_dir: Option<String>,
    /// The folders that the system looks in.
    pub search_dirs: Vec<String>,
}

/// The place that was named outright, unless it is blank.
pub open spec fn named_place(explicit: Option<Seq<char>>) -> Seq<Seq<Seq<char>>> {
    match explicit {
        Some(s) => if strs::trim(s).len() > 0 {
            seq![seq![strs::trim(s)]]
        } else {
            Seq::empty()
        },
        None => Seq::empty(),
    }
}

/// A list of places, with those in the folder for programs behind it.
pub open spec fn with_storage(
    list: Seq<Seq<Seq<char>>>,
    dir: Option<Seq<char>>,
    files: Seq<Seq<char>>,
) -> Seq<Seq<Seq<char>>> {
    match dir {
        Some(d) => with_files(list, d, Seq::empty(), files),
        None => list,
    }
}

/// A list of places, with those beside the running program behind it.
pub open spec fn with_program_dir(
    list: Seq<Seq<Seq<char>>>,
    dir: Option<Seq<char>>,
    files: Seq<Seq<char>>,
) -> Seq<Seq<Seq<char>>> {
    match dir {
        Some(d) => with_files(
            with_files(list, d, seq!["RoosyCozy"@, "sidecar"@], files),
            d,
            seq!["sidecar"@],
            files,
        ),
        None => list,
    }
}

/// A list of places, with those among the sources behind it, file by file.
pub open spec fn with_sources(
    list: Seq<Seq<Seq<char>>>,
    dir: Seq<char>,
    files: Seq<Seq<char>>,
) -> Seq<Seq<Seq<char>>>
    decreases files.len(),
{
    if files.len() == 0 {
        list
    } else {
        let head = with_sources(list, dir, files.drop_last());
        strs::with_new(
            strs::with_new(head, seq![dir, "binaries"@, files.last()]),
            seq![dir, "resources"@, "sidecar"@, files.last()],
        )
    }
}

/// A list of places, with those among the sources behind it, if there are sources.
pub open spec fn with_source_dir(
    list: Seq<Seq<Seq<char>>>,
    dir: Option<Seq<char>>,
    files: Seq<Seq<char>>,
) -> Seq<Seq<Seq<char>>> {
    match dir {
        Some(d) => with_sources(list, d, files),
        None => list,
    }
}

/// The places in which a program is looked for, in order.
pub open spec fn program_places(search: ProgramSearch, files: Seq<Seq<char>>) -> Seq<Seq<Seq<char>>> {
    let a = with_storage(
        named_place(strs::opt_view(search.explicit)),
        strs::opt_view(search.storage_dir),
        files,
    );
    let b = with_program_dir(a, strs::opt_view(search.program_dir), files);
    let c = with_source_dir(b, strs::opt_view(search.source_dir), files);
    with_dirs(c, strs::views(search.search_dirs@), files)
}

/// The places in which a program is looked for, in order, each as a folder and the names below.
pub fn program_candidates(search: &ProgramSearch, files: &Vec<String>) -> (r: Vec<Vec<String>>)
    ensures
        places(r@) == program_places(*search, strs::views(files@)),
{
    let mut out: Vec<Vec<String>> = Vec::new();
    if let Some(explicit) = &search.explicit {
        let trimmed = text::trim(explicit);
        if trimmed.as_str().unicode_len() > 0 {
            let mut path = text::no_texts();
            text::push(&mut path, trimmed);
            assert(strs::views(path@) =~= seq![strs::trim(explicit@)]);
            out.push(path);
        }
    }
    assert(places(out@) =~= named_place(strs::opt_view(search.explicit)));
    let nothing = text::no_texts();
    if let Some(dir) = &search.storage_dir {
        push_files(&mut out, dir, &nothing, files);
    }
    if let Some(dir) = &search.program_dir {
        let bundled = text::owned(&["RoosyCozy", "sidecar"]);
        assert(strs::views(bundled@) =~= seq!["RoosyCozy"@, "sidecar"@]);
        push_files(&mut out, dir, &bundled, files);
        let beside = text::owned(&["sidecar"]);
        assert(strs::views(beside@) =~= seq!["sidecar"@]);
        push_files(&mut out, dir, &beside, files);
    }
    if let Some(dir) = &search.source_dir {
        push_sources(&mut out, dir, files);
    }
    let ghost before = places(out@);
    let ghost dirs = strs::views(search.search_dirs@);
    let ghost names = strs::views(files@);
    let mut i: usize = 0;
    assert(dirs.take(0) =~= Seq::empty());
    while i < search.search_dirs.len()
        invariant
            i <= search.search_dirs@.len(),
            dirs == strs::views(search.search_dirs@),
            names == strs::views(files@),
            strs::views(nothing@) == Seq::<Seq<char>>::empty(),
            places(out@) == with_dirs(before, dirs.take(i as int), names),
        decreases search.search_dirs@.len() - i,
    {
        assert(dirs.take(i + 1).drop_last() =~= dirs.take(i as int));
        push_files(&mut out, &search.search_dirs[i], &nothing, files);
        i += 1;
    }
    assert(dirs.take(i as int) =~= dirs);
    out
}

fn push_sources(out: &mut Vec<Vec<String>>, dir: &str, files: &Vec<String>)
    ensures
        places(final(out)@) == with_sources(places(old(out)@), dir@, strs::views(files@)),
{
    let ghost all = strs::views(files@);
    let ghost before = places(out@);
    let mut i: usize = 0;
    assert(all.take(0) =~= Seq::empty());
    while i < files.len()
        invariant
            i <= files@.len(),
            all == strs::views(files@),
            places(out@) == with_sources(before, dir@, all.take(i as int)),
        decreases files@.len() - i,
    {
        assert(all.take(i + 1).drop_last() =~= all.take(i as int));
        let built = text::owned(&[dir, "binaries", files[i].as_str()]);
        assert(strs::views(built@) =~= seq![dir@, "binaries"@, files@[i as int]@]);
        push_unique_path(out, built);
        let shipped = text::owned(&[dir, "resources", "sidecar", files[i].as_str()]);
        assert(strs::views(shipped@) =~= seq![
            dir@,
            "resources"@,
            "sidecar"@,
            files@[i as int]@,
        ]);
        push_unique_path(out, shipped);
        i += 1;
    }
    assert(all.take(i as int) =~= all);
}

/// Where a model is looked for.
#[derive(Debug, Clone)]
pub struct ModelSearch {
    /// The folder that models are put in.
    pub storage_dir: Option<String>,
    /// The place of the model among the resources.
    pub resource: Option<String>,
    /// The folder above that of the running program.
    pub bundle_dir: Option<String>,
    /// The folder of the running program.
    pub program_dir: Option<String>,
    /// The folder of the sources, while they are worked on.
    pub source_dir: Option<String>,
    /// The folder above that of the sources.
    pub source_parent: Option<String>,
}

/// A list of places with one more behind it, where there is a folder.
pub open spec fn with_place(
    list: Seq<Seq<Seq<char>>>,
    dir: Option<Seq<char>>,
    names: Seq<Seq<char>>,
) -> Seq<Seq<Seq<char>>> {
    match dir {
        Some(d) => strs::with_new(list, place(d, names)),
        None => list,
    }
}

/// The places in which a model is looked for, in order.
pub open spec fn model_places(search: ModelSearch, file: Seq<char>) -> Seq<Seq<Seq<char>>> {
    let a = with_place(Seq::empty(), strs::opt_view(search.storage_dir), seq![file]);
    let b = with_place(a, strs::opt_view(search.resource), Seq::empty());
    let c = if search.program_dir is Some {
        with_place(b, strs::opt_view(search.bundle_dir), seq!["Resources"@, "models"@, file])
    } else {
        b
    };
    let d = with_place(
        c,
        strs::opt_view(search.program_dir),
        seq!["RoosyCozy"@, "resources"@, "models"@, file],
    );
    let e = with_place(d, strs::opt_view(search.program_dir), seq!["resources"@, "models"@, file]);
    let f = with_place(e, strs::opt_view(search.source_dir), seq!["resources"@, "models"@, file]);
    let g = with_place(f, strs::opt_view(search.source_dir), seq!["src"@, "engine"@, file]);
    let h = with_place(g, strs::opt_view(search.source_dir), seq![file]);
    if search.source_dir is Some {
        with_place(
            h,
            strs::opt_view(search.source_parent),
            seq!["src-tauri"@, "resources"@, "models"@, file],
        )
    } else {
        h
    }
}

fn push_place(out: &mut Vec<Vec<String>>, dir: &Option<String>, names: &[&str])
    ensures
        places(final(out)@) == with_place(
            places(old(out)@),
            strs::opt_view(*dir),
            strs::str_views(names@),
        ),
{
    if let Some(d) = dir {
        let mut path = text::no_texts();
        text::push(&mut path, d.clone());
        text::push_all(&mut path, &text::owned(names));
        assert(strs::views(path@) =~= place(d@, strs::str_views(names@)));
        push_unique_path(out, path);
    }
}

/// The places in which a model is looked for, in order, each as a folder and the names below.
pub fn strategy_model_candidates(search: &ModelSearch, model_id: &str) -> (r: Vec<Vec<String>>)
    ensures
        places(r@) == model_places(*search, model_file(model_id@)),
{
    let file = strategy_model_filename_for_id(model_id);
    let mut out: Vec<Vec<String>> = Vec::new();
    assert(places(out@) =~= Seq::empty());
    let own = [file];
    assert(strs::str_views(own@) =~= seq![file@]);
    push_place(&mut out, &search.storage_dir, &own);
    let nothing: [&str; 0] = [];
    assert(strs::str_views(nothing@) =~= Seq::empty());
    push_place(&mut out, &search.resource, &nothing);
    let bundled = ["Resources", "models", file];
    assert(strs::str_views(bundled@) =~= seq!["Resources"@, "models"@, file@]);
    if search.program_dir.is_some() {
        push_place(&mut out, &search.bundle_dir, &bundled);
    }
    let shipped = ["RoosyCozy", "resources", "models", file];
    assert(strs::str_views(shipped@) =~= seq!["RoosyCozy"@, "resources"@, "models"@, file@]);
    push_place(&mut out, &search.program_dir, &shipped);
    let beside = ["resources", "models", file];
    assert(strs::str_views(beside@) =~= seq!["resources"@, "models"@, file@]);
    push_place(&mut out, &search.program_dir, &beside);
    push_place(&mut out, &search.source_dir, &beside);
    let engine = ["src", "engine", file];
    assert(strs::str_views(engine@) =~= seq!["src"@, "engine"@, file@]);
    push_place(&mut out, &search.source_dir, &engine);
    push_place(&mut out, &search.source_dir, &own);
    let above = ["src-tauri", "resources", "models", file];
    assert(strs::str_views(above@) =~= seq!["src-tauri"@, "resources"@, "models"@, file@]);
    if search.source_dir.is_some() {
        push_place(&mut out, &search.source_parent, &above);
    }
    out
}

/// The first of a list of places at which there is something.
pub fn first_existing(found: &[bool]) -> (r: Option<usize>)
    ensures
        match r {
            Some(i) => i < found@.len() && found@[i as int] && forall|j: int|
                0 <= j < i ==> !#[trigger] found@[j],
            None => forall|j: int| 0 <= j < found@.len() ==> !#[trigger] found@[j],
        },
{
    let mut i: usize = 0;
    while i < found.len()
        invariant
            i <= found@.len(),
            forall|j: int| 0 <= j < i ==> !#[trigger] found@[j],
        decreases found@.len() - i,
    {
        if found[i] {
            return Some(i);
        }
        i += 1;
    }
    None
}

/// What is said where the program that runs a model once is missing.
pub fn runner_missing(os: &str, arch: &str) -> (r: String)
    ensures
        r@ == if os@ == "windows"@ {
            ("전략자문 추론기 파일을 찾지 못했어요. 먼저 AI 모델 다운로드를 완료했는지 확인해주세요. 실행 파일은 공용 RoosyCozy sidecar 폴더에서 찾고 있어요. 필요한 파일: "@ + runner_hint(os@, arch@))
        } else {
            ("전략자문 추론기 파일을 찾지 못했어요. 앱 번들의 sidecar 안에 "@ + runner_hint(os@, arch@) + "이(가) 함께 포함되어야 해요."@)
        },
{
    let hint = strategy_runner_hint_text(os, arch);
    if text::same(os, "windows") {
        let mut out = text::copy("전략자문 추론기 파일을 찾지 못했어요. 먼저 AI 모델 다운로드를 완료했는지 확인해주세요. 실행 파일은 공용 RoosyCozy sidecar 폴더에서 찾고 있어요. 필요한 파일: ");
        out.append(&hint);
        out
    } else {
        let mut out = text::copy("전략자문 추론기 파일을 찾지 못했어요. 앱 번들의 sidecar 안에 ");
        out.append(&hint);
        out.append("이(가) 함께 포함되어야 해요.");
        out
    }
}

/// What is said where the program that keeps a model running is missing.
pub fn llama_server_missing(os: &str, arch: &str) -> (r: String)
    ensures
        r@ == ("llama_server_binary_missing: "@ + strs::join(program_files(STRATEGY_LLAMA_SERVER_STEM@, os@, arch@), ", "@) + " 또는 PATH의 llama-server 실행 파일이 필요해요."@),
{
    let names = text::join(&strategy_llama_server_filenames(os, arch), ", ");
    let mut out = text::copy("llama_server_binary_missing: ");
    out.append(&names);
    out.append(" 또는 PATH의 llama-server 실행 파일이 필요해요.");
    out
}

/// What is said where a model is missing.
pub fn model_missing(model_id: &str, windows: bool) -> (r: String)
    ensures
        r@ == if windows {
            (model_label(model_id@) + " 모델 파일을 찾지 못했어요. 채팅 화면에서 먼저 AI 모델 다운로드를 실행한 뒤 다시 시도해주세요. 필요한 파일: "@ + model_file(model_id@))
        } else {
            (model_label(model_id@) + " 모델 파일을 찾지 못했어요. App 번들의 Resources/models 안에 "@ + model_file(model_id@) + " 파일을 포함해주세요."@)
        },
{
    let label = strategy_model_label_for_id(model_id);
    let file = strategy_model_filename_for_id(model_id);
    if windows {
        let mut out = text::copy(label);
        out.append(" 모델 파일을 찾지 못했어요. 채팅 화면에서 먼저 AI 모델 다운로드를 실행한 뒤 다시 시도해주세요. 필요한 파일: ");
        out.append(file);
        out
    } else {
        let mut out = text::copy(label);
        out.append(" 모델 파일을 찾지 못했어요. App 번들의 Resources/models 안에 ");
        out.append(file);
        out.append(" 파일을 포함해주세요.");
        out
    }
}

/// A model and whether it is there.
#[derive(Debug, Clone)]
pub struct StrategyModelAvailability {
    pub id: String,
    pub label: String,
    pub filename: String,
    pub available: bool,
    pub path: String,
}

/// The models and whether they are there.
#[derive(Debug, Clone)]
pub struct StrategyModelStatus {
    pub windows_download_mode: bool,
    pub download_supported: bool,
    pub all_ready: bool,
    pub storage_dir: String,
    pub models: Vec<StrategyModelAvailability>,
}

/// A model that can be downloaded.
#[derive(Debug, Clone, Copy)]
pub struct StrategyModelDownloadSpec {
    pub model_id: &'static str,
    pub label: &'static str,
    pub filename: &'static str,
    pub default_url: &'static str,
}

/// The models that can be downloaded: the default one and the trained one.
pub fn strategy_model_download_specs() -> (r: Vec<StrategyModelDownloadSpec>)
    ensures
        r@.len() == 2,
        r@[0].model_id@ == STRATEGY_MODEL_DEFAULT_ID@,
        r@[0].label@ == model_label(STRATEGY_MODEL_DEFAULT_ID@),
        r@[0].filename@ == STRATEGY_MODEL_FILENAME@,
        r@[0].default_url@ == STRATEGY_MODEL_DEFAULT_URL@,
        r@[1].model_id@ == STRATEGY_MODEL_ROOSY_ID@,
        r@[1].label@ == model_label(STRATEGY_MODEL_ROOSY_ID@),
        r@[1].filename@ == STRATEGY_MODEL_ROOSY_FILENAME@,
        r@[1].default_url@ == STRATEGY_MODEL_ROOSY_DEFAULT_URL@,
{
    let mut out: Vec<StrategyModelDownloadSpec> = Vec::new();
    out.push(
        StrategyModelDownloadSpec {
            model_id: STRATEGY_MODEL_DEFAULT_ID,
            label: strategy_model_label_for_id(STRATEGY_MODEL_DEFAULT_ID),
            filename: STRATEGY_MODEL_FILENAME,
            default_url: STRATEGY_MODEL_DEFAULT_URL,
        },
    );
    out.push(
        StrategyModelDownloadSpec {
            model_id: STRATEGY_MODEL_ROOSY_ID,
            label: strategy_model_label_for_id(STRATEGY_MODEL_ROOSY_ID),
            filename: STRATEGY_MODEL_ROOSY_FILENAME,
            default_url: STRATEGY_MODEL_ROOSY_DEFAULT_URL,
        },
    );
    out
}

/// A model of the status: found at a path, or missing.
pub open spec fn availability(
    m: StrategyModelAvailability,
    id: Seq<char>,
    file: Seq<char>,
    found: Option<Seq<char>>,
) -> bool {
    &&& m.id@ == id
    &&& m.label@ == model_label(id)
    &&& m.filename@ == file
    &&& m.available == (found is Some)
    &&& m.path@ == match found {
        Some(path) => path,
        None => ""@,
    }
}

fn availability_of(spec_of: &StrategyModelDownloadSpec, found: Option<String>) -> (r:
    StrategyModelAvailability)
    requires
        spec_of.label@ == model_label(spec_of.model_id@),
    ensures
        availability(r, spec_of.model_id@, spec_of.filename@, strs::opt_view(found)),
{
    let available = found.is_some();
    StrategyModelAvailability {
        id: spec_of.model_id.to_owned(),
        label: spec_of.label.to_owned(),
        filename: spec_of.filename.to_owned(),
        available,
        path: match found {
            Some(path) => path,
            None => "".to_owned(),
        },
    }
}

/// The models and whether they are there: `hyperclova` and `roosy` are where they were found.
pub fn strategy_model_status(
    storage_dir: Option<String>,
    hyperclova: Option<String>,
    roosy: Option<String>,
    windows: bool,
) -> (r: Result<StrategyModelStatus, String>)
    ensures
        r is Ok,
        r->Ok_0.windows_download_mode == windows,
        r->Ok_0.download_supported == windows,
        r->Ok_0.all_ready == (hyperclova is Some && roosy is Some),
        r->Ok_0.storage_dir@ == match storage_dir {
            Some(dir) => dir@,
            None => "."@,
        },
        r->Ok_0.models@.len() == 2,
        availability(
            r->Ok_0.models@[0],
            STRATEGY_MODEL_DEFAULT_ID@,
            STRATEGY_MODEL_FILENAME@,
            strs::opt_view(hyperclova),
        ),
        availability(
            r->Ok_0.models@[1],
            STRATEGY_MODEL_ROOSY_ID@,
            STRATEGY_MODEL_ROOSY_FILENAME@,
            strs::opt_view(roosy),
        ),
{
    let specs = strategy_model_download_specs();
    let all_ready = hyperclova.is_some() && roosy.is_some();
    let mut models: Vec<StrategyModelAvailability> = Vec::new();
    models.push(availability_of(&specs[0], hyperclova));
    models.push(availability_of(&specs[1], roosy));
    Ok(
        StrategyModelStatus {
            windows_download_mode: windows,
            download_supported: windows,
            all_ready,
            storage_dir: match storage_dir {
                Some(dir) => dir,
                None => ".".to_owned(),
            },
            models,
        },
    )
}

/// How far a download is said to be whose size is not known: it goes round with the mebibytes.
pub fn unsized_percent(downloaded_bytes: u64) -> (r: u8)
    ensures
        r == if (downloaded_bytes / 1048576) % 90 == 0 {
            1
        } else {
            (downloaded_bytes / 1048576) % 90
        },
        1 <= r <= 90,
{
    let turn: u64 = (downloaded_bytes / 1048576) % 90;
    if turn == 0 {
        1
    } else {
        turn as u8
    }
}

/// Whether the progress of a download is worth a report: where its size is not known, after half
/// a mebibyte, after one percent, and at its end.
pub fn progress_is_due(
    total_bytes: u64,
    downloaded_bytes: u64,
    last_reported_bytes: u64,
    percent: u8,
    last_percent: u8,
) -> (r: bool)
    ensures
        r == (total_bytes == 0 || downloaded_bytes >= (if last_reported_bytes + 524288 > u64::MAX {
            u64::MAX as int
        } else {
            last_reported_bytes + 524288
        }) || percent >= (if last_percent == 255 {
            255
        } else {
            last_percent + 1
        }) || downloaded_bytes == total_bytes),
{
    total_bytes == 0 || downloaded_bytes >= last_reported_bytes.saturating_add(524288) || percent
        >= last_percent.saturating_add(1) || downloaded_bytes == total_bytes
}

/// What a report of a download is known by.
#[derive(Debug, Clone)]
pub struct DownloadEvent {
    pub stage: String,
    pub model_id: String,
    pub completed: usize,
    pub total: usize,
}

/// Whether a report of a download is to be sent: one of a running download is not repeated.
pub fn download_event_is_new(event: &DownloadEvent, previous: Option<&DownloadEvent>) -> (r: bool)
    ensures
        r == !(event.stage@ == "downloading"@ && (previous matches Some(p) && p.stage@
            == event.stage@ && p.model_id@ == event.model_id@ && p.completed == event.completed
            && p.total == event.total)),
{
    if !text::same(&event.stage, "downloading") {
        return true;
    }
    match previous {
        Some(p) => !(text::same(&p.stage, &event.stage) && text::same(&p.model_id, &event.model_id)
            && p.completed == event.completed && p.total == event.total),
        None => true,
    }
}

/// A line that begins like a path on Windows: a letter, a colon, a slash, and more.
pub open spec fn windows_path(s: Seq<char>) -> bool {
    s.len() > 3 && s[0] < '\u{80}' && s[1] == ':' && (s[2] == '\\' || s[2] == '/')
}

/// Whether a line begins like a path on Windows.
pub fn looks_like_windows_path_line(s: &str) -> (r: bool)
    ensures
        r == windows_path(s@),
{
    if s.unicode_len() <= 3 {
        return false;
    }
    let a = s.get_char(0);
    let b = s.get_char(1);
    let c = s.get_char(2);
    a < '\u{80}' && b == ':' && (c == '\\' || c == '/')
}

/// What a runtime prints about itself.
pub open spec fn runtime_noise(s: Seq<char>) -> bool {
    let lower = strs::ascii_lower(s);
    ||| windows_path(s)
    ||| strs::contains(lower, "using custom system prompt"@)
    ||| strs::contains(lower, "llama-sidecar"@)
    ||| strs::contains(lower, "llama-cli"@)
    ||| strs::contains(lower, "llama-server"@)
    ||| strs::contains(lower, ".gguf"@)
    ||| strs::starts_with(lower, "main: "@)
    ||| strs::starts_with(lower, "system info"@)
    ||| strs::starts_with(lower, "sampler "@)
    ||| strs::starts_with(lower, "generate: "@)
    ||| strs::starts_with(lower, "n_ctx"@)
    ||| strs::starts_with(lower, "n_batch"@)
    ||| strs::starts_with(lower, "build info"@)
    ||| strs::starts_with(lower, "load_tensors"@)
    ||| strs::starts_with(lower, "load_backend"@)
    ||| strs::starts_with(lower, "common params"@)
    ||| strs::starts_with(lower, "print_info"@)
    ||| strs::starts_with(lower, "encode "@)
    ||| strs::starts_with(lower, "decode "@)
    ||| strs::starts_with(lower, "slot "@)
    ||| strs::starts_with(lower, "srv "@)
}

/// Whether a line is what a runtime prints about itself.
pub fn is_strategy_runtime_noise(trimmed: &str) -> (r: bool)
    ensures
        r == runtime_noise(trimmed@),
{
    let lower = text::ascii_lower(trimmed);
    looks_like_windows_path_line(trimmed) || text::contains(&lower, "using custom system prompt")
        || text::contains(&lower, "llama-sidecar") || text::contains(&lower, "llama-cli")
        || text::contains(&lower, "llama-server") || text::contains(&lower, ".gguf")
        || text::starts_with(&lower, "main: ") || text::starts_with(&lower, "system info")
        || text::starts_with(&lower, "sampler ") || text::starts_with(&lower, "generate: ")
        || text::starts_with(&lower, "n_ctx") || text::starts_with(&lower, "n_batch")
        || text::starts_with(&lower, "build info") || text::starts_with(&lower, "load_tensors")
        || text::starts_with(&lower, "load_backend") || text::starts_with(&lower, "common params")
        || text::starts_with(&lower, "print_info") || text::starts_with(&lower, "encode ")
        || text::starts_with(&lower, "decode ") || text::starts_with(&lower, "slot ")
        || text::starts_with(&lower, "srv ")
}

/// Whether a line that a runtime prints is worth showing: it speaks of an error.
pub fn should_emit_strategy_runtime_log(trimmed: &str) -> (r: bool)
    ensures
        r == (!runtime_noise(trimmed@) && strs::contains_any(
            strs::ascii_lower(trimmed@),
            seq!["error"@, "failed"@, "cannot"@, "invalid"@, "exception"@],
        )),
{
    let lower = text::ascii_lower(trimmed);
    !is_strategy_runtime_noise(trimmed) && text::contains_any(
        &lower,
        &["error", "failed", "cannot", "invalid", "exception"],
    )
}

} // verus!
