//! Path rules of the benchmark's configuration: joining relative paths onto
//! a base directory, and choosing the configuration file and the model file
//! from what the file system shows. Paths follow Unix conventions.
use vstd::prelude::*;
use crate::text::{bytes_lt, less_bytes};

verus! {

/// A path is absolute when it starts at the root.
pub open spec fn is_absolute(p: Seq<char>) -> bool {
    p.len() > 0 && p[0] == '/'
}

/// `base` joined with `value`: an absolute `value` replaces `base`;
/// otherwise a separator is put between them unless `base` is empty or
/// already ends with one.
pub open spec fn join_path(base: Seq<char>, value: Seq<char>) -> Seq<char> {
    if is_absolute(value) {
        value
    } else if base.len() > 0 && base.last() != '/' {
        base + seq!['/'] + value
    } else {
        base + value
    }
}

/// Resolves `value` against `base_dir`: absolute paths stay as they are,
/// relative ones are taken relative to `base_dir`.
pub fn resolve_path(base_dir: &str, value: String) -> (p: String)
    ensures
        p@ == join_path(base_dir@, value@),
{
    let n = value.as_str().unicode_len();
    if n > 0 && value.as_str().get_char(0) == '/' {
        return value;
    }
    let b = base_dir.unicode_len();
    let mut out = String::from_str(base_dir);
    if b > 0 && base_dir.get_char(b - 1) != '/' {
        let sep = "/";
        proof {
            reveal_strlit("/");
        }
        out.append(sep);
    }
    out.append(value.as_str());
    proof {
        if !(b > 0 && base_dir@.last() != '/') {
            assert(out@ =~= base_dir@ + value@);
        }
    }
    out
}

/// Resolving never loses an absolute path: an absolute value comes back
/// unchanged, and a relative value resolved against an absolute base is
/// absolute and starts with that base.
pub proof fn lemma_resolution_keeps_roots(base: Seq<char>, value: Seq<char>)
    ensures
        is_absolute(value) ==> join_path(base, value) == value,
        is_absolute(base) ==> is_absolute(join_path(base, value)),
        !is_absolute(value) ==> join_path(base, value).take(base.len() as int) == base,
{
    if !is_absolute(value) {
        let j = join_path(base, value);
        assert(j.take(base.len() as int) =~= base);
        if is_absolute(base) {
            assert(j[0] == base[0]);
        }
    }
}

/// The places searched for a configuration file, in order.
pub open spec fn config_candidates() -> Seq<Seq<char>> {
    seq![
        "llm-benchmark.toml"@,
        "tools/llm-benchmark/llm-benchmark.toml"@,
        "fluidity-bench.toml"@,
        "tools/llm-benchmark/fluidity-bench.toml"@,
        "../llm-benchmark.toml"@,
        "../tools/llm-benchmark/llm-benchmark.toml"@,
        "../fluidity-bench.toml"@,
        "../tools/llm-benchmark/fluidity-bench.toml"@,
    ]
}

/// The places searched for a configuration file, in order.
pub fn default_config_candidates() -> (c: Vec<String>)
    ensures
        c@.len() == config_candidates().len(),
        forall|i: int| 0 <= i < c@.len() ==> #[trigger] c@[i]@ == config_candidates()[i],
{
    let mut c: Vec<String> = Vec::new();
    c.push(String::from_str("llm-benchmark.toml"));
    c.push(String::from_str("tools/llm-benchmark/llm-benchmark.toml"));
    c.push(String::from_str("fluidity-bench.toml"));
    c.push(String::from_str("tools/llm-benchmark/fluidity-bench.toml"));
    c.push(String::from_str("../llm-benchmark.toml"));
    c.push(String::from_str("../tools/llm-benchmark/llm-benchmark.toml"));
    c.push(String::from_str("../fluidity-bench.toml"));
    c.push(String::from_str("../tools/llm-benchmark/fluidity-bench.toml"));
    c
}

/// The configuration file: the one given by flag, else the one found among
/// the candidates, else `llm-benchmark.toml`.
pub open spec fn chosen_config_path(cli: Option<Seq<char>>, discovered: Option<Seq<char>>) -> Seq<char> {
    match cli {
        Some(p) => p,
        None => match discovered {
            Some(p) => p,
            None => "llm-benchmark.toml"@,
        },
    }
}

pub open spec fn opt_chars(o: Option<String>) -> Option<Seq<char>> {
    match o {
        Some(s) => Some(s@),
        None => None,
    }
}

/// Chooses the configuration file from the flag and, when there is no
/// flag, the discovered candidate.
pub fn choose_config_path(cli: Option<String>, discovered: Option<String>) -> (p: String)
    ensures
        p@ == chosen_config_path(opt_chars(cli), opt_chars(discovered)),
{
    match cli {
        Some(c) => c,
        None => match discovered {
            Some(d) => d,
            None => String::from_str("llm-benchmark.toml"),
        },
    }
}

/// The parent directory of a path, as `std::path::Path::parent` gives it.
pub uninterp spec fn path_parent(p: Seq<char>) -> Option<Seq<char>>;

/// Calls `std::path::Path::parent`. Trusted: the result is the parent of
/// `p` (named, not stated), `None` where `p` has none.
#[verifier::external_body]
fn parent_of(p: &str) -> (r: Option<String>)
    ensures
        opt_chars(r) == path_parent(p@),
{
    match std::path::Path::new(p).parent() {
        Some(d) => Some(d.to_string_lossy().into_owned()),
        None => None,
    }
}

/// The directory that relative paths of a configuration file are resolved
/// against: the file's parent, or `.` when it has none.
pub fn config_base_dir(cfg_path: &str) -> (d: String)
    ensures
        d@ == match path_parent(cfg_path@) {
            Some(parent) => parent,
            None => "."@,
        },
{
    match parent_of(cfg_path) {
        Some(parent) => parent,
        None => String::from_str("."),
    }
}

/// Candidate `i` exists, given the existence flags of the candidates.
pub open spec fn flagged(exists: Seq<bool>, i: int) -> bool {
    0 <= i < exists.len() && exists[i]
}

/// The first configuration candidate that exists, given whether each one
/// exists (`exists[i]` for candidate `i`; a missing flag means absent).
pub fn discover_default_config_path(exists: &Vec<bool>) -> (found: Option<String>)
    ensures
        found is Some <==> exists|i: int| 0 <= i < config_candidates().len() && #[trigger] flagged(exists@, i),
        found matches Some(p) ==> exists|i: int|
            0 <= i < config_candidates().len() && #[trigger] flagged(exists@, i) && p@ == config_candidates()[i]
                && forall|j: int| 0 <= j < i ==> !flagged(exists@, j),
{
    let candidates = default_config_candidates();
    let mut i: usize = 0;
    while i < candidates.len()
        invariant
            i <= candidates@.len(),
            candidates@.len() == config_candidates().len(),
            forall|k: int| 0 <= k < candidates@.len() ==> #[trigger] candidates@[k]@ == config_candidates()[k],
            forall|j: int| 0 <= j < i ==> !flagged(exists@, j),
        decreases candidates@.len() - i,
    {
        if i < exists.len() && exists[i] {
            let p = candidates[i].clone();
            proof {
                assert(flagged(exists@, i as int));
            }
            return Some(p);
        }
        i = i + 1;
    }
    None
}

/// One entry of a directory listing.
#[derive(Debug, Clone)]
pub struct DirEntryInfo {
    /// The entry's file name, as bytes.
    pub name: Vec<u8>,
    /// The entry is a regular file (after following links).
    pub is_file: bool,
}

/// ASCII lower-casing of one byte.
pub open spec fn lower_byte(b: u8) -> u8 {
    if 65 <= b && b <= 90 {
        (b + 32) as u8
    } else {
        b
    }
}

/// The file name's extension (what follows its last dot, where that dot is
/// not the first byte) is `gguf` in any letter case.
pub open spec fn has_gguf_extension(n: Seq<u8>) -> bool {
    &&& n.len() >= 6
    &&& n[n.len() - 5] == 46
    &&& lower_byte(n[n.len() - 4]) == 103
    &&& lower_byte(n[n.len() - 3]) == 103
    &&& lower_byte(n[n.len() - 2]) == 117
    &&& lower_byte(n[n.len() - 1]) == 102
}

/// A regular file with a `gguf` extension.
pub open spec fn is_model_file(e: DirEntryInfo) -> bool {
    e.is_file && has_gguf_extension(e.name@)
}

/// The directories searched for a model, in order.
pub open spec fn model_dirs() -> Seq<Seq<u8>> {
    seq![
        seq![109u8, 111, 100, 101, 108, 115],
        seq![46u8, 46, 47, 109, 111, 100, 101, 108, 115],
        seq![46u8, 46, 47, 46, 46, 47, 109, 111, 100, 101, 108, 115],
    ]
}

/// The directories searched for a model, in order: `models`, `../models`,
/// `../../models`.
pub fn model_dir_candidates() -> (d: Vec<Vec<u8>>)
    ensures
        d@.len() == model_dirs().len(),
        forall|i: int| 0 <= i < d@.len() ==> #[trigger] d@[i]@ == model_dirs()[i],
{
    let mut d: Vec<Vec<u8>> = Vec::new();
    d.push(vec![109u8, 111, 100, 101, 108, 115]);
    d.push(vec![46u8, 46, 47, 109, 111, 100, 101, 108, 115]);
    d.push(vec![46u8, 46, 47, 46, 46, 47, 109, 111, 100, 101, 108, 115]);
    proof {
        assert(d@[0]@ =~= model_dirs()[0]);
        assert(d@[1]@ =~= model_dirs()[1]);
        assert(d@[2]@ =~= model_dirs()[2]);
    }
    d
}

/// The listing could be read and holds a model file.
pub open spec fn listing_has_model(l: Option<Vec<DirEntryInfo>>) -> bool {
    l matches Some(v) && exists|j: int| 0 <= j < v@.len() && #[trigger] is_model_file(v@[j])
}

/// `name` is the least name, in byte order, among the model files of `v`.
pub open spec fn least_model_name(v: Seq<DirEntryInfo>, name: Seq<u8>) -> bool {
    &&& exists|j: int| 0 <= j < v.len() && #[trigger] is_model_file(v[j]) && v[j].name@ == name
    &&& forall|k: int| 0 <= k < v.len() && #[trigger] is_model_file(v[k]) ==> !bytes_lt(v[k].name@, name)
}

/// Directory `d` is the first searched directory whose listing holds a
/// model file.
pub open spec fn first_model_dir(listings: Seq<Option<Vec<DirEntryInfo>>>, d: int) -> bool {
    &&& 0 <= d < model_dirs().len()
    &&& d < listings.len()
    &&& listing_has_model(listings[d])
    &&& forall|e: int| 0 <= e < d && e < listings.len() ==> !listing_has_model(#[trigger] listings[e])
}

/// Chooses the model file, given the listing of each searched directory
/// (`None` where the directory could not be read): in the first directory
/// that holds a regular `.gguf` file, the one whose name sorts first;
/// the result is that directory joined with the name.
pub fn discover_model_path(listings: &Vec<Option<Vec<DirEntryInfo>>>) -> (found: Option<Vec<u8>>)
    ensures
        found is Some <==> exists|d: int| first_model_dir(listings@, d),
        found matches Some(p) ==> exists|d: int, name: Seq<u8>|
            first_model_dir(listings@, d) && least_model_name(listings@[d]->0@, name) && p@
                == model_dirs()[d] + seq![47u8] + name,
{
    let dirs = model_dir_candidates();
    let mut d: usize = 0;
    while d < dirs.len() && d < listings.len()
        invariant
            d <= dirs@.len(),
            dirs@.len() == model_dirs().len(),
            forall|i: int| 0 <= i < dirs@.len() ==> #[trigger] dirs@[i]@ == model_dirs()[i],
            forall|e: int| 0 <= e < d && e < listings@.len() ==> !listing_has_model(#[trigger] listings@[e]),
        decreases dirs@.len() - d,
    {
        match &listings[d] {
            Some(entries) => {
                let mut best: Option<usize> = None;
                let mut j: usize = 0;
                while j < entries.len()
                    invariant
                        j <= entries@.len(),
                        best matches Some(b) ==> b < j && is_model_file(entries@[b as int]),
                        best matches Some(b) ==> forall|k: int|
                            0 <= k < j && #[trigger] is_model_file(entries@[k]) ==> !bytes_lt(
                                entries@[k].name@,
                                entries@[b as int].name@,
                            ),
                        best is None ==> forall|k: int| 0 <= k < j ==> !#[trigger] is_model_file(entries@[k]),
                    decreases entries@.len() - j,
                {
                    if is_gguf_file(&entries[j]) {
                        match best {
                            Some(b) => {
                                if less_bytes(&entries[j].name, &entries[b].name) {
                                    proof {
                                        lemma_bytes_lt_transitive_total(entries@, j as int, b as int);
                                    }
                                    best = Some(j);
                                }
                            },
                            None => {
                                best = Some(j);
                            },
                        }
                    }
                    j = j + 1;
                }
                match best {
                    Some(b) => {
                        let mut path: Vec<u8> = dirs[d].clone();
                        path.push(47u8);
                        let name = &entries[b].name;
                        let mut k: usize = 0;
                        let ghost prefix = path@;
                        while k < name.len()
                            invariant
                                k <= name@.len(),
                                path@ == prefix + name@.take(k as int),
                            decreases name@.len() - k,
                        {
                            path.push(name[k]);
                            proof {
                                assert(name@.take(k + 1) =~= name@.take(k as int).push(name@[k as int]));
                            }
                            k = k + 1;
                        }
                        proof {
                            assert(name@.take(name@.len() as int) =~= name@);
                            assert(first_model_dir(listings@, d as int));
                            assert(least_model_name(listings@[d as int]->0@, name@));
                            assert(path@ =~= model_dirs()[d as int] + seq![47u8] + name@);
                        }
                        return Some(path);
                    },
                    None => {},
                }
            },
            None => {},
        }
        d = d + 1;
    }
    proof {
        assert forall|e: int| !first_model_dir(listings@, e) by {}
    }
    None
}

/// Whether the entry is a regular file with a `gguf` extension.
fn is_gguf_file(e: &DirEntryInfo) -> (b: bool)
    ensures
        b == is_model_file(*e),
{
    if !e.is_file {
        return false;
    }
    let n = e.name.len();
    if n < 6 {
        return false;
    }
    e.name[n - 5] == 46 && lower(e.name[n - 4]) == 103 && lower(e.name[n - 3]) == 103 && lower(
        e.name[n - 2],
    ) == 117 && lower(e.name[n - 1]) == 102
}

fn lower(b: u8) -> (l: u8)
    ensures
        l == lower_byte(b),
{
    if 65 <= b && b <= 90 {
        b + 32
    } else {
        b
    }
}

/// Byte order is a strict total order: if the new entry sorts before the
/// current best, it sorts before everything the best did not sort after.
proof fn lemma_bytes_lt_transitive_total(v: Seq<DirEntryInfo>, j: int, b: int)
    requires
        0 <= j < v.len(),
        0 <= b < v.len(),
        bytes_lt(v[j].name@, v[b].name@),
    ensures
        forall|k: int|
            0 <= k < v.len() && !bytes_lt(v[k].name@, v[b].name@) ==> !bytes_lt(
                v[k].name@,
                v[j].name@,
            ),
{
    assert forall|k: int|
        0 <= k < v.len() && !bytes_lt(v[k].name@, v[b].name@) implies !bytes_lt(
        v[k].name@,
        v[j].name@,
    ) by {
        if bytes_lt(v[k].name@, v[j].name@) {
            crate::text::lemma_bytes_lt_transitive(v[k].name@, v[j].name@, v[b].name@);
        }
    }
}

/// Every regular file whose name is a non-empty stem, a dot and `gguf` in
/// any letter case is a model file, whatever other dots the stem holds; and
/// a directory listing holding one has a model.
pub proof fn lemma_gguf_names_are_models(
    stem: Seq<u8>,
    ext: Seq<u8>,
    e: DirEntryInfo,
    v: Vec<DirEntryInfo>,
    j: int,
)
    requires
        stem.len() >= 1,
        ext.len() == 4,
        ext[0] == 103 || ext[0] == 71,
        ext[1] == 103 || ext[1] == 71,
        ext[2] == 117 || ext[2] == 85,
        ext[3] == 102 || ext[3] == 70,
    ensures
        has_gguf_extension(stem + seq![46u8] + ext),
        e.is_file && e.name@ == stem + seq![46u8] + ext ==> is_model_file(e),
        0 <= j < v@.len() && v@[j].is_file && v@[j].name@ == stem + seq![46u8] + ext
            ==> listing_has_model(Some(v)),
{
    let n = stem + seq![46u8] + ext;
    assert(n.len() == stem.len() + 5);
    assert(n[n.len() - 5] == 46);
    assert(n[n.len() - 4] == ext[0]);
    assert(n[n.len() - 3] == ext[1]);
    assert(n[n.len() - 2] == ext[2]);
    assert(n[n.len() - 1] == ext[3]);
    if 0 <= j < v@.len() && v@[j].is_file && v@[j].name@ == n {
        assert(is_model_file(v@[j]));
        let l: Option<Vec<DirEntryInfo>> = Some(v);
        assert(l->0@[j] == v@[j]);
        assert(listing_has_model(l));
    }
}

/// The eight configuration candidates: `llm-benchmark.toml` and
/// `fluidity-bench.toml`, each on its own and under `tools/llm-benchmark/`,
/// first relative to the working directory and then to its parent.
pub proof fn lemma_config_candidates_layout()
    ensures
        config_candidates().len() == 8,
        config_candidates()[0] == "llm-benchmark.toml"@,
        config_candidates()[2] == "fluidity-bench.toml"@,
        config_candidates()[1] == "tools/llm-benchmark/"@ + config_candidates()[0],
        config_candidates()[3] == "tools/llm-benchmark/"@ + config_candidates()[2],
        forall|i: int| 0 <= i < 4 ==> #[trigger] config_candidates()[i + 4] == "../"@ + config_candidates()[i],
{
    reveal_strlit("llm-benchmark.toml");
    reveal_strlit("tools/llm-benchmark/llm-benchmark.toml");
    reveal_strlit("fluidity-bench.toml");
    reveal_strlit("tools/llm-benchmark/fluidity-bench.toml");
    reveal_strlit("../llm-benchmark.toml");
    reveal_strlit("../tools/llm-benchmark/llm-benchmark.toml");
    reveal_strlit("../fluidity-bench.toml");
    reveal_strlit("../tools/llm-benchmark/fluidity-bench.toml");
    reveal_strlit("tools/llm-benchmark/");
    reveal_strlit("../");
    let c = config_candidates();
    assert(c[1] =~= "tools/llm-benchmark/"@ + c[0]);
    assert(c[3] =~= "tools/llm-benchmark/"@ + c[2]);
    assert(c[4] =~= "../"@ + c[0]);
    assert(c[5] =~= "../"@ + c[1]);
    assert(c[6] =~= "../"@ + c[2]);
    assert(c[7] =~= "../"@ + c[3]);
    assert forall|i: int| 0 <= i < 4 implies #[trigger] c[i + 4] == "../"@ + c[i] by {
        if i == 0 {
        } else if i == 1 {
        } else if i == 2 {
        } else {
        }
    }
}

} // verus!
