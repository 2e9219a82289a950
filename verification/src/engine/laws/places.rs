//! What holds of the models and of the places in which they and their programs are looked for.

use crate::engine::models;
use crate::engine::models::{
    ModelSearch, ProgramSearch, STRATEGY_MODEL_DEFAULT_ID, STRATEGY_MODEL_HYBRID_ID,
    STRATEGY_MODEL_ROOSY_ID,
};
use crate::strs;
use vstd::prelude::*;

verus! {

/// A model is meant by its name in small or large letters, whatever white space is around it; any
/// other name, and none, means the default model.
pub proof fn a_model_is_meant_by_its_name(s: Seq<char>)
    ensures
        ({
            let name = strs::ascii_lower(strs::trim(s));
            let meant = models::model_named(Some(s));
            &&& name == "roosy-hybrid"@ ==> meant == "roosy-hybrid"@
            &&& name == "roosy-x"@ && name != "roosy-hybrid"@ ==> meant == "roosy-x"@
            &&& name != "roosy-hybrid"@ && name != "roosy-x"@ ==> meant == "hyperclova-x"@
            &&& models::model_named(None) == "hyperclova-x"@
        }),
{
}

/// The trained model has a file of its own, and every other name has that of the default model;
/// each of the three is called by its own name.
pub proof fn models_have_their_files_and_labels(id: Seq<char>)
    ensures
        ({
            let meant = models::model_named(Some(id));
            &&& meant == STRATEGY_MODEL_ROOSY_ID@ ==> models::model_file(id)
                == "hyperclovax_roosy_Q4_K_M.gguf"@
            &&& meant != STRATEGY_MODEL_ROOSY_ID@ ==> models::model_file(id)
                == "HyperCLOVAX-SEED-Text-Instruct-0.5B-q4_0.gguf"@
            &&& meant == STRATEGY_MODEL_HYBRID_ID@ ==> models::model_label(id) == "ROOSY-Hybrid"@
            &&& meant == STRATEGY_MODEL_ROOSY_ID@ && meant != STRATEGY_MODEL_HYBRID_ID@
                ==> models::model_label(id) == "Roosy-X"@
            &&& meant == STRATEGY_MODEL_DEFAULT_ID@ && meant != STRATEGY_MODEL_HYBRID_ID@ && meant
                != STRATEGY_MODEL_ROOSY_ID@ ==> models::model_label(id) == "HyperCLOVA-X"@
        }),
{
}

/// A program is looked for under the name of its system first, then under its plain name; on a
/// system that is not known there is only the plain name. Programs of Windows end in .exe.
pub proof fn programs_go_by_their_system(stem: Seq<char>, os: Seq<char>, arch: Seq<char>)
    ensures
        ({
            let files = models::program_files(stem, os, arch);
            let plain = if os == "windows"@ {
                stem + ".exe"@
            } else {
                stem
            };
            &&& 1 <= files.len() <= 2
            &&& files.contains(plain)
            &&& files.last() == plain
            &&& files.len() == 2 ==> files[0] != files[1]
            &&& os == "macos"@ && arch == "aarch64"@ ==> files[0] == stem
                + "-aarch64-apple-darwin"@
            &&& os == "macos"@ && arch == "x86_64"@ && arch != "aarch64"@ ==> files[0] == stem
                + "-x86_64-apple-darwin"@
            &&& os == "windows"@ && os != "macos"@ && arch == "x86_64"@ ==> files[0] == stem
                + "-x86_64-pc-windows-msvc.exe"@
            &&& os == "linux"@ && os != "macos"@ && os != "windows"@ && arch == "x86_64"@
                ==> files[0] == stem + "-x86_64-unknown-linux-gnu"@
            &&& os == "linux"@ && os != "macos"@ && arch == "aarch64"@ && arch != "x86_64"@
                ==> files[0] == stem + "-aarch64-unknown-linux-gnu"@
        }),
{
    let files = models::program_files(stem, os, arch);
    assert(files[files.len() - 1] == models::generic_file(stem, os));
}

/// One list goes on from another: it has its items in their places.
pub open spec fn goes_on<A>(a: Seq<A>, b: Seq<A>) -> bool {
    a.len() <= b.len() && forall|i: int| 0 <= i < a.len() ==> #[trigger] b[i] == a[i]
}

proof fn lemma_new<A>(list: Seq<A>, x: A)
    ensures
        goes_on(list, strs::with_new(list, x)),
        strs::with_new(list, x).contains(x),
        list.no_duplicates() ==> strs::with_new(list, x).no_duplicates(),
{
    let all = strs::with_new(list, x);
    if !list.contains(x) {
        assert(all[list.len() as int] == x);
        if list.no_duplicates() {
            assert forall|i: int, j: int| 0 <= i < all.len() && 0 <= j < all.len() && i != j implies all[i]
                != all[j] by {
                if i < list.len() && j < list.len() {
                    assert(all[i] == list[i] && all[j] == list[j]);
                } else if i < list.len() {
                    assert(list.contains(list[i]));
                } else {
                    assert(list.contains(list[j]));
                }
            }
        }
    }
}

proof fn lemma_on<A>(a: Seq<A>, b: Seq<A>, x: A)
    requires
        goes_on(a, b),
        a.contains(x),
    ensures
        b.contains(x),
{
    let i = choose|i: int| 0 <= i < a.len() && a[i] == x;
    assert(b[i] == x);
}

proof fn lemma_files(
    list: Seq<Seq<Seq<char>>>,
    dir: Seq<char>,
    below: Seq<Seq<char>>,
    files: Seq<Seq<char>>,
)
    ensures
        goes_on(list, models::with_files(list, dir, below, files)),
        forall|k: int|
            0 <= k < files.len() ==> models::with_files(list, dir, below, files).contains(
                seq![dir] + below.push(#[trigger] files[k]),
            ),
        list.no_duplicates() ==> models::with_files(list, dir, below, files).no_duplicates(),
    decreases files.len(),
{
    if files.len() > 0 {
        let t = files.drop_last();
        lemma_files(list, dir, below, t);
        let head = models::with_files(list, dir, below, t);
        let all = models::with_files(list, dir, below, files);
        let x = models::place(dir, below.push(files.last()));
        lemma_new(head, x);
        assert forall|k: int| 0 <= k < files.len() implies all.contains(
            seq![dir] + below.push(#[trigger] files[k]),
        ) by {
            if k < t.len() {
                assert(t[k] == files[k]);
                lemma_on(head, all, seq![dir] + below.push(files[k]));
            }
        }
    }
}

proof fn lemma_sources(list: Seq<Seq<Seq<char>>>, dir: Seq<char>, files: Seq<Seq<char>>)
    ensures
        goes_on(list, models::with_sources(list, dir, files)),
        forall|k: int|
            0 <= k < files.len() ==> models::with_sources(list, dir, files).contains(
                seq![dir, "binaries"@, #[trigger] files[k]],
            ) && models::with_sources(list, dir, files).contains(
                seq![dir, "resources"@, "sidecar"@, files[k]],
            ),
        list.no_duplicates() ==> models::with_sources(list, dir, files).no_duplicates(),
    decreases files.len(),
{
    if files.len() > 0 {
        let t = files.drop_last();
        lemma_sources(list, dir, t);
        let head = models::with_sources(list, dir, t);
        let x = seq![dir, "binaries"@, files.last()];
        let y = seq![dir, "resources"@, "sidecar"@, files.last()];
        let mid = strs::with_new(head, x);
        let all = strs::with_new(mid, y);
        lemma_new(head, x);
        lemma_new(mid, y);
        lemma_on(mid, all, x);
        assert forall|k: int| 0 <= k < files.len() implies all.contains(
            seq![dir, "binaries"@, #[trigger] files[k]],
        ) && all.contains(seq![dir, "resources"@, "sidecar"@, files[k]]) by {
            if k < t.len() {
                assert(t[k] == files[k]);
                lemma_on(head, mid, seq![dir, "binaries"@, files[k]]);
                lemma_on(mid, all, seq![dir, "binaries"@, files[k]]);
                lemma_on(head, mid, seq![dir, "resources"@, "sidecar"@, files[k]]);
                lemma_on(mid, all, seq![dir, "resources"@, "sidecar"@, files[k]]);
            }
        }
    }
}

proof fn lemma_dirs(list: Seq<Seq<Seq<char>>>, dirs: Seq<Seq<char>>, files: Seq<Seq<char>>)
    ensures
        goes_on(list, models::with_dirs(list, dirs, files)),
        forall|d: int, k: int|
            0 <= d < dirs.len() && 0 <= k < files.len() ==> models::with_dirs(
                list,
                dirs,
                files,
            ).contains(seq![#[trigger] dirs[d], #[trigger] files[k]]),
        list.no_duplicates() ==> models::with_dirs(list, dirs, files).no_duplicates(),
    decreases dirs.len(),
{
    if dirs.len() > 0 {
        let t = dirs.drop_last();
        lemma_dirs(list, t, files);
        let head = models::with_dirs(list, t, files);
        let all = models::with_dirs(list, dirs, files);
        lemma_files(head, dirs.last(), Seq::empty(), files);
        assert forall|d: int, k: int| 0 <= d < dirs.len() && 0 <= k < files.len() implies all.contains(
            seq![#[trigger] dirs[d], #[trigger] files[k]],
        ) by {
            if d < t.len() {
                assert(t[d] == dirs[d]);
                lemma_on(head, all, seq![dirs[d], files[k]]);
            } else {
                assert(seq![dirs.last()] + Seq::empty().push(files[k]) =~= seq![
                    dirs[d],
                    files[k],
                ]);
            }
        }
    }
}

/// A program is looked for where it was named outright, in the folder for programs, beside the
/// running program, among the sources and in the folders of the system, under each of its names,
/// and nowhere twice; a place that was named comes first.
pub proof fn programs_are_looked_for_everywhere(search: ProgramSearch, files: Seq<Seq<char>>, k: int)
    requires
        0 <= k < files.len(),
    ensures
        ({
            let places = models::program_places(search, files);
            let file = files[k];
            &&& places.no_duplicates()
            &&& search.explicit is Some && strs::trim(search.explicit->0@).len() > 0 ==> places.len()
                > 0 && places[0] == seq![strs::trim(search.explicit->0@)]
            &&& search.storage_dir matches Some(d) ==> places.contains(seq![d@, file])
            &&& search.program_dir matches Some(d) ==> places.contains(
                seq![d@, "RoosyCozy"@, "sidecar"@, file],
            ) && places.contains(seq![d@, "sidecar"@, file])
            &&& search.source_dir matches Some(d) ==> places.contains(seq![d@, "binaries"@, file])
                && places.contains(seq![d@, "resources"@, "sidecar"@, file])
            &&& forall|d: int|
                0 <= d < search.search_dirs@.len() ==> places.contains(
                    seq![(#[trigger] search.search_dirs@[d])@, file],
                )
        }),
{
    let file = files[k];
    let named = models::named_place(strs::opt_view(search.explicit));
    let a = models::with_storage(named, strs::opt_view(search.storage_dir), files);
    let b = models::with_program_dir(a, strs::opt_view(search.program_dir), files);
    let c = models::with_source_dir(b, strs::opt_view(search.source_dir), files);
    let dirs = strs::views(search.search_dirs@);
    let all = models::with_dirs(c, dirs, files);
    match search.storage_dir {
        Some(d) => {
            lemma_files(named, d@, Seq::empty(), files);
            assert(seq![d@] + Seq::empty().push(file) =~= seq![d@, file]);
        },
        None => {},
    }
    match search.program_dir {
        Some(d) => {
            let mid = models::with_files(a, d@, seq!["RoosyCozy"@, "sidecar"@], files);
            lemma_files(a, d@, seq!["RoosyCozy"@, "sidecar"@], files);
            lemma_files(mid, d@, seq!["sidecar"@], files);
            assert(seq![d@] + seq!["RoosyCozy"@, "sidecar"@].push(file) =~= seq![
                d@,
                "RoosyCozy"@,
                "sidecar"@,
                file,
            ]);
            assert(seq![d@] + seq!["sidecar"@].push(file) =~= seq![d@, "sidecar"@, file]);
            lemma_on(mid, b, seq![d@, "RoosyCozy"@, "sidecar"@, file]);
        },
        None => {},
    }
    match search.source_dir {
        Some(d) => {
            lemma_sources(b, d@, files);
        },
        None => {},
    }
    lemma_dirs(c, dirs, files);
    assert(named.no_duplicates());
    assert(goes_on(named, a) && goes_on(a, b) && goes_on(b, c) && goes_on(c, all));
    if search.explicit is Some && strs::trim(search.explicit->0@).len() > 0 {
        assert(a[0] == named[0]);
        assert(b[0] == a[0]);
        assert(c[0] == b[0]);
        assert(all[0] == c[0]);
    }
    if search.storage_dir is Some {
        let x = seq![search.storage_dir->0@, file];
        lemma_on(a, b, x);
        lemma_on(b, c, x);
        lemma_on(c, all, x);
    }
    if search.program_dir is Some {
        let d = search.program_dir->0@;
        lemma_on(b, c, seq![d, "RoosyCozy"@, "sidecar"@, file]);
        lemma_on(c, all, seq![d, "RoosyCozy"@, "sidecar"@, file]);
        lemma_on(b, c, seq![d, "sidecar"@, file]);
        lemma_on(c, all, seq![d, "sidecar"@, file]);
    }
    if search.source_dir is Some {
        let d = search.source_dir->0@;
        lemma_on(c, all, seq![d, "binaries"@, file]);
        lemma_on(c, all, seq![d, "resources"@, "sidecar"@, file]);
    }
    assert forall|d: int| 0 <= d < search.search_dirs@.len() implies all.contains(
        seq![(#[trigger] search.search_dirs@[d])@, file],
    ) by {
        assert(dirs[d] == search.search_dirs@[d]@);
    }
}

proof fn lemma_place(
    list: Seq<Seq<Seq<char>>>,
    dir: Option<Seq<char>>,
    names: Seq<Seq<char>>,
)
    ensures
        goes_on(list, models::with_place(list, dir, names)),
        dir matches Some(d) ==> models::with_place(list, dir, names).contains(seq![d] + names),
        list.no_duplicates() ==> models::with_place(list, dir, names).no_duplicates(),
{
    match dir {
        Some(d) => {
            lemma_new(list, models::place(d, names));
        },
        None => {},
    }
}

/// A model is looked for in the folder for models first, then among the resources, beside the
/// running program and among the sources, nowhere twice.
pub proof fn models_are_looked_for_everywhere(search: ModelSearch, file: Seq<char>)
    ensures
        ({
            let places = models::model_places(search, file);
            &&& places.no_duplicates()
            &&& search.storage_dir matches Some(d) ==> places.len() > 0 && places[0] == seq![
                d@,
                file,
            ]
            &&& search.resource matches Some(r) ==> places.contains(seq![r@])
            &&& search.program_dir matches Some(d) ==> places.contains(
                seq![d@, "resources"@, "models"@, file],
            ) && places.contains(seq![d@, "RoosyCozy"@, "resources"@, "models"@, file])
            &&& search.program_dir is Some ==> (search.bundle_dir matches Some(d)
                ==> places.contains(seq![d@, "Resources"@, "models"@, file]))
            &&& search.source_dir matches Some(d) ==> places.contains(
                seq![d@, "resources"@, "models"@, file],
            ) && places.contains(seq![d@, "src"@, "engine"@, file]) && places.contains(
                seq![d@, file],
            )
            &&& search.source_dir is Some ==> (search.source_parent matches Some(d)
                ==> places.contains(seq![d@, "src-tauri"@, "resources"@, "models"@, file]))
        }),
{
    let none = Seq::<Seq<Seq<char>>>::empty();
    let storage = strs::opt_view(search.storage_dir);
    let resource = strs::opt_view(search.resource);
    let bundle = strs::opt_view(search.bundle_dir);
    let program = strs::opt_view(search.program_dir);
    let source = strs::opt_view(search.source_dir);
    let parent = strs::opt_view(search.source_parent);
    let a = models::with_place(none, storage, seq![file]);
    lemma_place(none, storage, seq![file]);
    let b = models::with_place(a, resource, Seq::empty());
    lemma_place(a, resource, Seq::empty());
    let cc = models::with_place(b, bundle, seq!["Resources"@, "models"@, file]);
    lemma_place(b, bundle, seq!["Resources"@, "models"@, file]);
    let c = if search.program_dir is Some {
        cc
    } else {
        b
    };
    let d = models::with_place(c, program, seq!["RoosyCozy"@, "resources"@, "models"@, file]);
    lemma_place(c, program, seq!["RoosyCozy"@, "resources"@, "models"@, file]);
    let e = models::with_place(d, program, seq!["resources"@, "models"@, file]);
    lemma_place(d, program, seq!["resources"@, "models"@, file]);
    let f = models::with_place(e, source, seq!["resources"@, "models"@, file]);
    lemma_place(e, source, seq!["resources"@, "models"@, file]);
    let g = models::with_place(f, source, seq!["src"@, "engine"@, file]);
    lemma_place(f, source, seq!["src"@, "engine"@, file]);
    let h = models::with_place(g, source, seq![file]);
    lemma_place(g, source, seq![file]);
    let ii = models::with_place(h, parent, seq!["src-tauri"@, "resources"@, "models"@, file]);
    lemma_place(h, parent, seq!["src-tauri"@, "resources"@, "models"@, file]);
    let all = models::model_places(search, file);
    assert(none.no_duplicates());
    lemma_chain(a, b, c, d, e, f, g, h, all);
    if search.storage_dir is Some {
        let x = seq![search.storage_dir->0@] + seq![file];
        assert(x =~= seq![search.storage_dir->0@, file]);
        assert(a[0] == x);
        assert(all[0] == a[0]);
    }
    if search.resource is Some {
        let x = seq![search.resource->0@] + Seq::empty();
        assert(x =~= seq![search.resource->0@]);
        lemma_on(b, all, x);
    }
    if search.program_dir is Some {
        let p = search.program_dir->0@;
        let x = seq![p] + seq!["RoosyCozy"@, "resources"@, "models"@, file];
        assert(x =~= seq![p, "RoosyCozy"@, "resources"@, "models"@, file]);
        lemma_on(d, all, x);
        let y = seq![p] + seq!["resources"@, "models"@, file];
        assert(y =~= seq![p, "resources"@, "models"@, file]);
        lemma_on(e, all, y);
        if search.bundle_dir is Some {
            let z = seq![search.bundle_dir->0@] + seq!["Resources"@, "models"@, file];
            assert(z =~= seq![search.bundle_dir->0@, "Resources"@, "models"@, file]);
            lemma_on(c, all, z);
        }
    }
    if search.source_dir is Some {
        let s = search.source_dir->0@;
        let x = seq![s] + seq!["resources"@, "models"@, file];
        assert(x =~= seq![s, "resources"@, "models"@, file]);
        lemma_on(f, all, x);
        let y = seq![s] + seq!["src"@, "engine"@, file];
        assert(y =~= seq![s, "src"@, "engine"@, file]);
        lemma_on(g, all, y);
        let z = seq![s] + seq![file];
        assert(z =~= seq![s, file]);
        lemma_on(h, all, z);
        if search.source_parent is Some {
            let w = seq![search.source_parent->0@] + seq![
                "src-tauri"@,
                "resources"@,
                "models"@,
                file,
            ];
            assert(w =~= seq![
                search.source_parent->0@,
                "src-tauri"@,
                "resources"@,
                "models"@,
                file,
            ]);
        }
    }
}

proof fn lemma_chain<A>(
    a: Seq<A>,
    b: Seq<A>,
    c: Seq<A>,
    d: Seq<A>,
    e: Seq<A>,
    f: Seq<A>,
    g: Seq<A>,
    h: Seq<A>,
    all: Seq<A>,
)
    requires
        goes_on(a, b),
        goes_on(b, c),
        goes_on(c, d),
        goes_on(d, e),
        goes_on(e, f),
        goes_on(f, g),
        goes_on(g, h),
        goes_on(h, all),
    ensures
        goes_on(a, all),
        goes_on(b, all),
        goes_on(c, all),
        goes_on(d, all),
        goes_on(e, all),
        goes_on(f, all),
        goes_on(g, all),
{
    lemma_further(g, h, all);
    lemma_further(f, g, all);
    lemma_further(e, f, all);
    lemma_further(d, e, all);
    lemma_further(c, d, all);
    lemma_further(b, c, all);
    lemma_further(a, b, all);
}

proof fn lemma_further<A>(a: Seq<A>, b: Seq<A>, c: Seq<A>)
    requires
        goes_on(a, b),
        goes_on(b, c),
    ensures
        goes_on(a, c),
{
    assert forall|i: int| 0 <= i < a.len() implies #[trigger] c[i] == a[i] by {
        assert(b[i] == a[i]);
    }
}

} // verus!
