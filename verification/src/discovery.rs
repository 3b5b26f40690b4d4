//! Where models, binaries and assets are looked for. The caller supplies the
//! directories that come from the environment and checks which candidate paths exist;
//! these functions list the candidates in search order and choose among them.
use crate::text::{
    chars_of, has_suffix, join_path, path_join, str_eq, strip_prefix, has_prefix, ends_with,
    trim, trim_str,
};
use crate::config::VadConfig;
use vstd::prelude::*;

verus! {

/// The views of a list of texts.
pub open spec fn views(v: Seq<String>) -> Seq<Seq<char>> {
    v.map_values(|s: String| s@)
}

/// Whether candidate `i` exists; a missing flag counts as "does not exist".
pub open spec fn flag(existing: Seq<bool>, i: int) -> bool {
    0 <= i < existing.len() && existing[i]
}

/// `i` is the first of the `n` candidates that exists.
pub open spec fn is_first_existing(existing: Seq<bool>, n: int, i: int) -> bool {
    &&& 0 <= i < n
    &&& flag(existing, i)
    &&& forall|j: int| 0 <= j < i ==> !flag(existing, j)
}

/// None of the `n` candidates exists.
pub open spec fn none_exists(existing: Seq<bool>, n: int) -> bool {
    forall|j: int| 0 <= j < n ==> !flag(existing, j)
}

/// The index of the first of `n` candidates that exists, given which ones exist.
pub fn first_existing(n: usize, existing: &[bool]) -> (r: Option<usize>)
    ensures
        match r {
            Some(i) => is_first_existing(existing@, n as int, i as int),
            None => none_exists(existing@, n as int),
        },
{
    let mut i: usize = 0;
    while i < n
        invariant
            i <= n,
            forall|j: int| 0 <= j < i ==> !flag(existing@, j),
        decreases n - i,
    {
        if i < existing.len() && existing[i] {
            return Some(i);
        }
        i += 1;
    }
    None
}

/// How a path begins: `0` at the root (a leading `/`), `1` at an explicit current
/// directory (the path is `.` or starts with `./`), `2` otherwise.
pub open spec fn path_start(s: Seq<char>) -> u8 {
    if s.len() > 0 && s[0] == '/' {
        0
    } else if s.len() > 0 && s[0] == '.' && (s.len() == 1 || s[1] == '/') {
        1
    } else {
        2
    }
}

/// A segment between separators that names a component: not empty and not `.`.
pub open spec fn is_kept_segment(seg: Seq<char>) -> bool {
    seg.len() > 0 && seg != "."@
}

/// The components found so far, with the segment that `seg` closes.
pub open spec fn close_segment(done: Seq<Seq<char>>, seg: Seq<char>) -> Seq<Seq<char>> {
    if is_kept_segment(seg) {
        done.push(seg)
    } else {
        done
    }
}

/// Reads `s` from the left: the components closed so far and the open segment.
pub open spec fn scan_path(s: Seq<char>) -> (Seq<Seq<char>>, Seq<char>)
    decreases s.len(),
{
    if s.len() == 0 {
        (Seq::empty(), Seq::empty())
    } else {
        let prev = scan_path(s.drop_last());
        if s.last() == '/' {
            (close_segment(prev.0, prev.1), Seq::empty())
        } else {
            (prev.0, prev.1.push(s.last()))
        }
    }
}

/// The named components of a path: its segments between `/` separators, without empty
/// segments and without `.` segments.
pub open spec fn path_parts(s: Seq<char>) -> Seq<Seq<char>> {
    close_segment(scan_path(s).0, scan_path(s).1)
}

/// Two texts name the same path when they have the same components: they begin alike
/// and have the same named components, so that repeated or trailing separators and
/// interior `.` segments make no difference.
pub open spec fn same_path(a: Seq<char>, b: Seq<char>) -> bool {
    path_start(a) == path_start(b) && path_parts(a) == path_parts(b)
}

/// Whether `list` holds a text that names the same path as `x`.
pub open spec fn has_same_path(list: Seq<Seq<char>>, x: Seq<char>) -> bool {
    exists|j: int| 0 <= j < list.len() && same_path(list[j], x)
}

/// The first `n` candidates that exist, each kept only when no path kept before it is
/// the same path.
pub open spec fn existing_unique(c: Seq<Seq<char>>, e: Seq<bool>, n: nat) -> Seq<Seq<char>>
    decreases n,
{
    if n == 0 {
        Seq::empty()
    } else {
        let prev = existing_unique(c, e, (n - 1) as nat);
        if flag(e, n - 1) && !has_same_path(prev, c[n - 1]) {
            prev.push(c[n - 1])
        } else {
            prev
        }
    }
}

/// How the path `s` begins (see `path_start`).
pub fn path_start_kind(s: &str) -> (r: u8)
    ensures
        r == path_start(s@),
{
    let n = s.unicode_len();
    if n > 0 && s.get_char(0) == '/' {
        0
    } else if n > 0 && s.get_char(0) == '.' && (n == 1 || s.get_char(1) == '/') {
        1
    } else {
        2
    }
}

/// Appends the segment `seg` when it names a component.
fn push_if_kept(out: &mut Vec<String>, seg: &str)
    ensures
        views(final(out)@) == close_segment(views(old(out)@), seg@),
{
    if seg.unicode_len() > 0 && !str_eq(seg, ".") {
        let ghost before = out@;
        out.push(String::from_str(seg));
        assert(views(out@) =~= views(before).push(seg@));
    }
}

/// The named components of the path `s` (see `path_parts`).
pub fn path_parts_of(s: &str) -> (r: Vec<String>)
    ensures
        views(r@) == path_parts(s@),
{
    let chars = chars_of(s);
    let n = chars.len();
    let mut done: Vec<String> = Vec::new();
    let mut start: usize = 0;
    let mut i: usize = 0;
    while i < n
        invariant
            n == s@.len(),
            chars@ == s@,
            start <= i <= n,
            scan_path(s@.take(i as int)) == (views(done@), s@.subrange(start as int, i as int)),
        decreases n - i,
    {
        assert(s@.take(i + 1).drop_last() =~= s@.take(i as int));
        assert(s@.take(i + 1).last() == s@[i as int]);
        if chars[i] == '/' {
            let seg = s.substring_char(start, i);
            push_if_kept(&mut done, seg);
            start = i + 1;
            assert(s@.subrange(start as int, i + 1) =~= Seq::<char>::empty());
        } else {
            assert(s@.subrange(start as int, i + 1) =~= s@.subrange(start as int, i as int).push(
                s@[i as int],
            ));
        }
        i += 1;
    }
    assert(s@.take(n as int) =~= s@);
    let seg = s.substring_char(start, n);
    push_if_kept(&mut done, seg);
    done
}

/// Whether two lists of texts are equal.
fn texts_equal(a: &Vec<String>, b: &Vec<String>) -> (r: bool)
    ensures
        r == (views(a@) == views(b@)),
{
    if a.len() != b.len() {
        assert(views(a@).len() != views(b@).len());
        return false;
    }
    let mut i: usize = 0;
    while i < a.len()
        invariant
            a@.len() == b@.len(),
            i <= a@.len(),
            forall|j: int| 0 <= j < i ==> a@[j]@ == b@[j]@,
        decreases a@.len() - i,
    {
        if !str_eq(a[i].as_str(), b[i].as_str()) {
            assert(views(a@)[i as int] != views(b@)[i as int]);
            return false;
        }
        i += 1;
    }
    assert(views(a@) =~= views(b@));
    true
}

/// Whether `a` and `b` name the same path (see `same_path`).
pub fn same_path_text(a: &str, b: &str) -> (r: bool)
    ensures
        r == same_path(a@, b@),
{
    if path_start_kind(a) != path_start_kind(b) {
        return false;
    }
    let pa = path_parts_of(a);
    let pb = path_parts_of(b);
    texts_equal(&pa, &pb)
}

/// Whether `list` holds a text that names the same path as `x`.
pub fn contains_path(list: &Vec<String>, x: &str) -> (r: bool)
    ensures
        r == has_same_path(views(list@), x@),
{
    let mut i: usize = 0;
    while i < list.len()
        invariant
            i <= list@.len(),
            forall|j: int| 0 <= j < i ==> !same_path(list@[j]@, x@),
        decreases list@.len() - i,
    {
        if same_path_text(list[i].as_str(), x) {
            assert(views(list@)[i as int] == list@[i as int]@);
            return true;
        }
        i += 1;
    }
    assert forall|j: int| 0 <= j < views(list@).len() implies !same_path(views(list@)[j], x@) by {
        assert(views(list@)[j] == list@[j]@);
    }
    false
}

/// The candidates that exist, in order, without repeats.
pub fn keep_existing_unique(candidates: &Vec<String>, existing: &[bool]) -> (r: Vec<String>)
    ensures
        views(r@) == existing_unique(views(candidates@), existing@, candidates@.len()),
{
    let mut out: Vec<String> = Vec::new();
    let mut i: usize = 0;
    while i < candidates.len()
        invariant
            i <= candidates@.len(),
            views(out@) == existing_unique(views(candidates@), existing@, i as nat),
        decreases candidates@.len() - i,
    {
        let c = &candidates[i];
        assert(views(candidates@)[i as int] == c@);
        if i < existing.len() && existing[i] && !contains_path(&out, c.as_str()) {
            out.push(c.clone());
            assert(views(out@) =~= existing_unique(views(candidates@), existing@, i as nat).push(
                c@,
            ));
        }
        i += 1;
    }
    out
}

/// A kept list never holds a path twice: no two of its entries name the same path.
pub proof fn lemma_existing_unique_distinct(c: Seq<Seq<char>>, e: Seq<bool>, n: nat)
    requires
        n <= c.len(),
    ensures
        forall|i: int, j: int|
            0 <= i < j < existing_unique(c, e, n).len() ==> !same_path(
                existing_unique(c, e, n)[i],
                existing_unique(c, e, n)[j],
            ),
    decreases n,
{
    if n > 0 {
        lemma_existing_unique_distinct(c, e, (n - 1) as nat);
        let prev = existing_unique(c, e, (n - 1) as nat);
        if flag(e, n - 1) && !has_same_path(prev, c[n - 1]) {
            assert forall|i: int, j: int|
                0 <= i < j < existing_unique(c, e, n).len() implies !same_path(
                existing_unique(c, e, n)[i],
                existing_unique(c, e, n)[j],
            ) by {
                if j == prev.len() {
                    assert(prev[i] == existing_unique(c, e, n)[i]);
                    if same_path(prev[i], c[n - 1]) {
                        assert(has_same_path(prev, c[n - 1]));
                    }
                }
            }
        }
    }
}


/// The texts of `list` separated by `sep`.
pub open spec fn joined(list: Seq<Seq<char>>, sep: Seq<char>) -> Seq<char>
    decreases list.len(),
{
    if list.len() == 0 {
        Seq::empty()
    } else if list.len() == 1 {
        list[0]
    } else {
        joined(list.drop_last(), sep) + sep + list.last()
    }
}

/// The texts of `list` separated by `sep`.
pub fn join_texts(list: &Vec<String>, sep: &str) -> (r: String)
    ensures
        r@ == joined(views(list@), sep@),
{
    let mut r = String::new();
    let mut i: usize = 0;
    while i < list.len()
        invariant
            i <= list@.len(),
            r@ == joined(views(list@).take(i as int), sep@),
        decreases list@.len() - i,
    {
        assert(views(list@).take(i + 1).drop_last() =~= views(list@).take(i as int));
        assert(views(list@).take(i + 1).last() == list@[i as int]@);
        if i > 0 {
            r.append(sep);
        } else {
            assert(r@ =~= Seq::<char>::empty());
        }
        r.append(list[i].as_str());
        i += 1;
    }
    assert(views(list@).take(list@.len() as int) =~= views(list@));
    r
}

/// The file names a whisper model is looked for under: `ggml-<model>.bin` for an
/// English-only model (name ending in `.en`), else `ggml-<model>.en.bin` and then
/// `ggml-<model>.bin`.
pub open spec fn model_file_names(model: Seq<char>) -> Seq<Seq<char>> {
    if has_suffix(model, ".en"@) {
        seq!["ggml-"@ + model + ".bin"@]
    } else {
        seq!["ggml-"@ + model + ".en.bin"@, "ggml-"@ + model + ".bin"@]
    }
}

/// The file names a whisper model is looked for under.
pub fn model_file_candidates(model_name: &str) -> (r: Vec<String>)
    ensures
        views(r@) == model_file_names(model_name@),
{
    let mut r: Vec<String> = Vec::new();
    if ends_with(model_name, ".en") {
        r.push(crate::text::concat3("ggml-", model_name, ".bin"));
        assert(views(r@) =~= model_file_names(model_name@));
    } else {
        r.push(crate::text::concat3("ggml-", model_name, ".en.bin"));
        r.push(crate::text::concat3("ggml-", model_name, ".bin"));
        assert(views(r@) =~= model_file_names(model_name@));
    }
    r
}

/// Every name joined onto `dir`, in order.
pub open spec fn paths_under(dir: Seq<char>, names: Seq<Seq<char>>) -> Seq<Seq<char>> {
    names.map_values(|n: Seq<char>| join_path(dir, n))
}

/// The paths a model is looked for at: for each directory in turn, each file name.
pub open spec fn model_paths(dirs: Seq<Seq<char>>, names: Seq<Seq<char>>) -> Seq<Seq<char>>
    decreases dirs.len(),
{
    if dirs.len() == 0 {
        Seq::empty()
    } else {
        model_paths(dirs.drop_last(), names) + paths_under(dirs.last(), names)
    }
}

/// The paths the model `model_name` is looked for at, in search order.
pub fn model_path_candidates(search_dirs: &Vec<String>, model_name: &str) -> (r: Vec<String>)
    ensures
        views(r@) == model_paths(views(search_dirs@), model_file_names(model_name@)),
{
    let names = model_file_candidates(model_name);
    let ghost n = model_file_names(model_name@);
    let mut r: Vec<String> = Vec::new();
    let mut i: usize = 0;
    while i < search_dirs.len()
        invariant
            i <= search_dirs@.len(),
            views(names@) == n,
            views(r@) == model_paths(views(search_dirs@).take(i as int), n),
        decreases search_dirs@.len() - i,
    {
        let ghost before = views(r@);
        let dir = &search_dirs[i];
        let mut k: usize = 0;
        while k < names.len()
            invariant
                k <= names@.len(),
                i < search_dirs@.len(),
                dir == &search_dirs@[i as int],
                views(names@) == n,
                views(r@) == before + paths_under(dir@, n).take(k as int),
            decreases names@.len() - k,
        {
            let p = path_join(dir.as_str(), names[k].as_str());
            assert(views(names@)[k as int] == names@[k as int]@);
            assert(paths_under(dir@, n)[k as int] == p@);
            let ghost r_before = r@;
            r.push(p);
            assert(views(r@) =~= views(r_before).push(p@));
            assert(paths_under(dir@, n).take(k + 1) =~= paths_under(dir@, n).take(k as int).push(
                p@,
            ));
            assert(views(r@) =~= before + paths_under(dir@, n).take(k + 1));
            k += 1;
        }
        assert(paths_under(dir@, n).take(names@.len() as int) =~= paths_under(dir@, n));
        assert(views(search_dirs@).take(i + 1).drop_last() =~= views(search_dirs@).take(i as int));
        assert(views(search_dirs@).take(i + 1).last() == dir@);
        i += 1;
    }
    assert(views(search_dirs@).take(search_dirs@.len() as int) =~= views(search_dirs@));
    r
}

/// The directory suggested for downloading models.
pub open spec fn model_download_hint() -> Seq<char> {
    "No models found. Please download to ~/.local/share/hyprwhspr-rs/models:\nhttps://huggingface.co/ggerganov/whisper.cpp/tree/main"@
}

/// Why no whisper model file was found.
#[derive(Debug, Clone, PartialEq, Eq)]
pub enum ModelPathError {
    /// There is no directory to search.
    NoSearchDirs,
    /// No candidate file exists; `searched` lists the directories, comma separated.
    NotFound { model: String, searched: String },
}

impl ModelPathError {
    /// The message that describes this error.
    pub fn message(&self) -> (r: String)
        ensures
            r@ == match self {
                ModelPathError::NoSearchDirs => model_download_hint(),
                ModelPathError::NotFound { model, searched } => "Whisper model '"@ + model@
                    + "' not found in: "@ + searched@,
            },
    {
        match self {
            ModelPathError::NoSearchDirs => String::from_str(
                "No models found. Please download to ~/.local/share/hyprwhspr-rs/models:\nhttps://huggingface.co/ggerganov/whisper.cpp/tree/main",
            ),
            ModelPathError::NotFound { model, searched } => {
                let r = crate::text::concat3("Whisper model '", model.as_str(), "' not found in: ");
                r.concat(searched.as_str())
            },
        }
    }
}

/// Chooses the model file. `existing[i]` tells whether the `i`-th path of
/// `model_path_candidates(search_dirs, model_name)` exists. With no directory to search,
/// or no existing candidate, the model is not found.
pub fn resolve_model_path(model_name: &str, search_dirs: &Vec<String>, existing: &[bool]) -> (r:
    Result<String, ModelPathError>)
    ensures
        ({
            let paths = model_paths(views(search_dirs@), model_file_names(model_name@));
            if search_dirs@.len() == 0 {
                r == Err::<String, ModelPathError>(ModelPathError::NoSearchDirs)
            } else if exists|i: int| is_first_existing(existing@, paths.len() as int, i) {
                r matches Ok(p) && exists|i: int|
                    is_first_existing(existing@, paths.len() as int, i) && p@ == paths[i]
            } else {
                r matches Err(ModelPathError::NotFound { model, searched }) && model@
                    == model_name@ && searched@ == joined(views(search_dirs@), ", "@)
            }
        }),
{
    if search_dirs.len() == 0 {
        return Err(ModelPathError::NoSearchDirs);
    }
    let candidates = model_path_candidates(search_dirs, model_name);
    let ghost paths = views(candidates@);
    match first_existing(candidates.len(), existing) {
        Some(i) => {
            assert(paths[i as int] == candidates@[i as int]@);
            Ok(candidates[i].clone())
        },
        None => {
            assert forall|i: int| !is_first_existing(existing@, paths.len() as int, i) by {}
            Err(
                ModelPathError::NotFound {
                    model: String::from_str(model_name),
                    searched: join_texts(search_dirs, ", "),
                },
            )
        },
    }
}


/// Appends `name` joined onto `base`.
fn push_joined(out: &mut Vec<String>, base: &str, name: &str)
    ensures
        views(final(out)@) == views(old(out)@).push(join_path(base@, name@)),
{
    let p = path_join(base, name);
    let ghost before = out@;
    out.push(p);
    assert(views(out@) =~= views(before).push(p@));
}

/// Appends a copy of `text`.
fn push_text(out: &mut Vec<String>, text: &str)
    ensures
        views(final(out)@) == views(old(out)@).push(text@),
{
    let ghost before = out@;
    out.push(String::from_str(text));
    assert(views(out@) =~= views(before).push(text@));
}

/// The optional text as a one- or zero-element list.
pub open spec fn opt_list(o: Option<Seq<char>>) -> Seq<Seq<char>> {
    match o {
        Some(x) => seq![x],
        None => Seq::empty(),
    }
}

/// The text of an optional `&str`.
pub open spec fn opt_text(o: Option<&str>) -> Option<Seq<char>> {
    match o {
        Some(s) => Some(s@),
        None => None,
    }
}

/// A directory with a leading `~` replaced by the home directory: `~` alone is the home
/// directory, `~/rest` is `rest` under it; without a home directory nothing changes.
pub open spec fn expanded_home(s: Seq<char>, home: Option<Seq<char>>) -> Seq<char> {
    match home {
        Some(h) => if s == "~"@ {
            h
        } else if has_prefix(s, "~/"@) {
            join_path(h, s.subrange(2, s.len() as int))
        } else {
            s
        },
        None => s,
    }
}

/// `path` with a leading `~` replaced by `home`, as `expanded_home` describes.
pub fn expand_tilde(path: &str, home: Option<&str>) -> (r: String)
    ensures
        r@ == expanded_home(path@, opt_text(home)),
{
    match home {
        Some(h) => {
            if str_eq(path, "~") {
                String::from_str(h)
            } else {
                match strip_prefix(path, "~/") {
                    Some(rest) => {
                        proof { reveal_strlit("~/"); }
                        path_join(h, rest)
                    },
                    None => String::from_str(path),
                }
            }
        },
        None => String::from_str(path),
    }
}

/// The configured model directories that are not blank, trimmed and with `~` expanded.
pub open spec fn configured_model_dirs(dirs: Seq<Seq<char>>, home: Option<Seq<char>>) -> Seq<
    Seq<char>,
>
    decreases dirs.len(),
{
    if dirs.len() == 0 {
        Seq::empty()
    } else {
        let prev = configured_model_dirs(dirs.drop_last(), home);
        let t = trim(dirs.last());
        if t.len() == 0 {
            prev
        } else {
            prev.push(expanded_home(t, home))
        }
    }
}

/// The system-wide model directory.
pub open spec fn system_models_dir() -> Seq<char> {
    "/usr/share/whisper/models"@
}

/// The model directory of older managed installations, under the home directory.
pub open spec fn legacy_models_dir(home: Seq<char>) -> Seq<char> {
    join_path(home, ".local/share/hyprwhspr-rs/whisper.cpp/models"@)
}

/// The directories that may hold models, in search order: the configured ones, the
/// system-wide one, and, with a home directory, the legacy managed one.
pub open spec fn model_dir_candidates(dirs: Seq<Seq<char>>, home: Option<Seq<char>>) -> Seq<
    Seq<char>,
> {
    configured_model_dirs(dirs, home) + seq![system_models_dir()] + match home {
        Some(h) => seq![legacy_models_dir(h)],
        None => Seq::empty(),
    }
}

/// The directories that may hold models, in search order (see `model_dir_candidates`).
pub fn model_search_dir_candidates(models_dirs: &Vec<String>, home: Option<&str>) -> (r: Vec<
    String,
>)
    ensures
        views(r@) == model_dir_candidates(views(models_dirs@), opt_text(home)),
{
    let mut r: Vec<String> = Vec::new();
    let mut i: usize = 0;
    while i < models_dirs.len()
        invariant
            i <= models_dirs@.len(),
            views(r@) == configured_model_dirs(views(models_dirs@).take(i as int), opt_text(home)),
        decreases models_dirs@.len() - i,
    {
        let t = trim_str(models_dirs[i].as_str());
        let ghost taken = views(models_dirs@).take(i + 1);
        assert(taken.drop_last() =~= views(models_dirs@).take(i as int));
        assert(taken.last() == models_dirs@[i as int]@);
        if t.unicode_len() > 0 {
            let e = expand_tilde(t, home);
            let ghost before = r@;
            r.push(e);
            assert(views(r@) =~= views(before).push(e@));
        }
        i += 1;
    }
    assert(views(models_dirs@).take(models_dirs@.len() as int) =~= views(models_dirs@));
    proof { reveal_strlit("/usr/share/whisper/models"); }
    push_text(&mut r, "/usr/share/whisper/models");
    if let Some(h) = home {
        push_joined(&mut r, h, ".local/share/hyprwhspr-rs/whisper.cpp/models");
    }
    assert(views(r@) =~= model_dir_candidates(views(models_dirs@), opt_text(home)));
    r
}

/// The model search directories, given which of `model_dir_candidates` exist: the
/// existing configured directories without repeats, then the system-wide and legacy
/// directories when they exist.
pub open spec fn model_search_dirs_of(
    dirs: Seq<Seq<char>>,
    home: Option<Seq<char>>,
    existing: Seq<bool>,
) -> Seq<Seq<char>> {
    let configured = configured_model_dirs(dirs, home);
    let m = configured.len() as int;
    existing_unique(configured, existing, configured.len()) + (if flag(existing, m) {
        seq![system_models_dir()]
    } else {
        Seq::empty()
    }) + match home {
        Some(h) => if flag(existing, m + 1) {
            seq![legacy_models_dir(h)]
        } else {
            Seq::empty()
        },
        None => Seq::empty(),
    }
}

/// The directories searched for models. `existing[i]` tells whether the `i`-th path of
/// `model_search_dir_candidates(models_dirs, home)` exists.
pub fn model_search_dirs(models_dirs: &Vec<String>, home: Option<&str>, existing: &[bool]) -> (r:
    Vec<String>)
    ensures
        views(r@) == model_search_dirs_of(views(models_dirs@), opt_text(home), existing@),
{
    let candidates = model_search_dir_candidates(models_dirs, home);
    let ghost configured = configured_model_dirs(views(models_dirs@), opt_text(home));
    assert(views(candidates@).len() == candidates@.len());
    assert(candidates@.len() == configured.len() + 1 + (if home is Some { 1int } else { 0int }));
    let m: usize = candidates.len() - if home.is_some() { 2 } else { 1 };
    assert(m == configured.len());
    let mut configured_only: Vec<String> = Vec::new();
    let mut i: usize = 0;
    while i < m
        invariant
            i <= m <= candidates@.len(),
            m == configured.len(),
            views(candidates@) == model_dir_candidates(views(models_dirs@), opt_text(home)),
            configured == configured_model_dirs(views(models_dirs@), opt_text(home)),
            views(configured_only@) == configured.take(i as int),
        decreases m - i,
    {
        assert(views(candidates@)[i as int] == configured[i as int]);
        let ghost before = configured_only@;
        configured_only.push(candidates[i].clone());
        assert(views(configured_only@) =~= views(before).push(configured[i as int]));
        assert(configured.take(i + 1) =~= configured.take(i as int).push(configured[i as int]));
        i += 1;
    }
    assert(configured.take(m as int) =~= configured);
    let mut r = keep_existing_unique(&configured_only, existing);
    if m < existing.len() && existing[m] {
        proof { reveal_strlit("/usr/share/whisper/models"); }
        push_text(&mut r, "/usr/share/whisper/models");
    }
    if let Some(h) = home {
        if m + 1 < existing.len() && existing[m + 1] {
            push_joined(&mut r, h, ".local/share/hyprwhspr-rs/whisper.cpp/models");
        }
    }
    assert(views(r@) =~= model_search_dirs_of(views(models_dirs@), opt_text(home), existing@));
    r
}


/// The paths the voice activity model is looked for at, in order: none when detection is
/// disabled or the model name is blank; else the trimmed name itself, then under the
/// directory of the configuration file, under the configuration directory, and under
/// each model search directory.
pub open spec fn vad_model_paths(
    vad: VadConfig,
    config_dir: Option<Seq<char>>,
    project_config_dir: Option<Seq<char>>,
    search_dirs: Seq<Seq<char>>,
) -> Seq<Seq<char>> {
    let m = trim(vad.model@);
    if !vad.enabled || m.len() == 0 {
        Seq::empty()
    } else {
        seq![m] + opt_list(
            match config_dir {
                Some(d) => Some(join_path(d, m)),
                None => None,
            },
        ) + opt_list(
            match project_config_dir {
                Some(d) => Some(join_path(d, m)),
                None => None,
            },
        ) + paths_under_each(search_dirs, m)
    }
}

/// `name` under each directory, in order.
pub open spec fn paths_under_each(dirs: Seq<Seq<char>>, name: Seq<char>) -> Seq<Seq<char>> {
    dirs.map_values(|d: Seq<char>| join_path(d, name))
}

/// Appends `name` under each directory of `dirs`.
fn push_under_each(out: &mut Vec<String>, dirs: &Vec<String>, name: &str)
    ensures
        views(final(out)@) == views(old(out)@) + paths_under_each(views(dirs@), name@),
{
    let ghost start = views(out@);
    let mut i: usize = 0;
    while i < dirs.len()
        invariant
            i <= dirs@.len(),
            views(out@) == start + paths_under_each(views(dirs@), name@).take(i as int),
        decreases dirs@.len() - i,
    {
        push_joined(out, dirs[i].as_str(), name);
        assert(paths_under_each(views(dirs@), name@).take(i + 1) =~= paths_under_each(
            views(dirs@),
            name@,
        ).take(i as int).push(join_path(dirs@[i as int]@, name@)));
        i += 1;
    }
    assert(paths_under_each(views(dirs@), name@).take(dirs@.len() as int) =~= paths_under_each(
        views(dirs@),
        name@,
    ));
}

/// The paths the voice activity model is looked for at (see `vad_model_paths`).
/// `config_dir` is the directory of the configuration file and `project_config_dir` the
/// application's configuration directory.
pub fn vad_model_candidates(
    vad: &VadConfig,
    config_dir: Option<&str>,
    project_config_dir: Option<&str>,
    search_dirs: &Vec<String>,
) -> (r: Vec<String>)
    ensures
        views(r@) == vad_model_paths(
            *vad,
            opt_text(config_dir),
            opt_text(project_config_dir),
            views(search_dirs@),
        ),
{
    let mut r: Vec<String> = Vec::new();
    if !vad.enabled {
        return r;
    }
    let m = trim_str(vad.model.as_str());
    if m.unicode_len() == 0 {
        return r;
    }
    push_text(&mut r, m);
    if let Some(d) = config_dir {
        push_joined(&mut r, d, m);
    }
    if let Some(d) = project_config_dir {
        push_joined(&mut r, d, m);
    }
    push_under_each(&mut r, search_dirs, m);
    assert(views(r@) =~= vad_model_paths(
        *vad,
        opt_text(config_dir),
        opt_text(project_config_dir),
        views(search_dirs@),
    ));
    r
}

/// The first candidate that exists, given which ones do.
pub fn first_existing_path(candidates: &Vec<String>, existing: &[bool]) -> (r: Option<String>)
    ensures
        match r {
            Some(p) => exists|i: int|
                is_first_existing(existing@, candidates@.len() as int, i) && p@ == candidates@[i]@,
            None => none_exists(existing@, candidates@.len() as int),
        },
{
    match first_existing(candidates.len(), existing) {
        Some(i) => Some(candidates[i].clone()),
        None => None,
    }
}

/// The voice activity model file: the first of `vad_model_candidates` that exists
/// (`existing[i]` tells whether the `i`-th does), or none.
pub fn resolve_vad_model_path(
    vad: &VadConfig,
    config_dir: Option<&str>,
    project_config_dir: Option<&str>,
    search_dirs: &Vec<String>,
    existing: &[bool],
) -> (r: Option<String>)
    ensures
        ({
            let c = vad_model_paths(
                *vad,
                opt_text(config_dir),
                opt_text(project_config_dir),
                views(search_dirs@),
            );
            match r {
                Some(p) => exists|i: int| is_first_existing(existing@, c.len() as int, i) && p@ == c[i],
                None => none_exists(existing@, c.len() as int),
            }
        }),
{
    let candidates = vad_model_candidates(vad, config_dir, project_config_dir, search_dirs);
    let ghost c = views(candidates@);
    let r = first_existing_path(&candidates, existing);
    proof {
        if r is Some {
            let p = r->0;
            let i = choose|i: int|
                is_first_existing(existing@, candidates@.len() as int, i) && p@ == candidates@[i]@;
            assert(c[i] == candidates@[i]@);
        }
    }
    r
}

/// The whisper binaries of a managed build rooted at `local`: `whisper-cli` in
/// `build/bin` and in `local` itself, and with fallbacks also `main` and `whisper` in both.
pub open spec fn managed_binaries(local: Seq<char>, fallbacks: bool) -> Seq<Seq<char>> {
    let bin = join_path(local, "build/bin"@);
    seq![join_path(bin, "whisper-cli"@), join_path(local, "whisper-cli"@)] + if fallbacks {
        seq![
            join_path(bin, "main"@),
            join_path(bin, "whisper"@),
            join_path(local, "main"@),
            join_path(local, "whisper"@),
        ]
    } else {
        Seq::empty()
    }
}

/// The whisper binaries to look for on the search path: `whisper-cli` in each directory,
/// then with fallbacks `whisper` and `main` in each directory.
pub open spec fn path_binaries(path_dirs: Seq<Seq<char>>, fallbacks: bool) -> Seq<Seq<char>> {
    paths_under_each(path_dirs, "whisper-cli"@) + if fallbacks {
        fallback_path_binaries(path_dirs)
    } else {
        Seq::empty()
    }
}

/// `whisper` then `main` in each directory, directory by directory.
pub open spec fn fallback_path_binaries(path_dirs: Seq<Seq<char>>) -> Seq<Seq<char>>
    decreases path_dirs.len(),
{
    if path_dirs.len() == 0 {
        Seq::empty()
    } else {
        fallback_path_binaries(path_dirs.drop_last()) + seq![
            join_path(path_dirs.last(), "whisper"@),
            join_path(path_dirs.last(), "main"@),
        ]
    }
}

/// The whisper binaries looked for, in order of preference: the managed build under the
/// data directory, the older managed build under the home directory, then the search path.
pub open spec fn whisper_binary_paths(
    data_dir: Option<Seq<char>>,
    home: Option<Seq<char>>,
    path_dirs: Seq<Seq<char>>,
    fallbacks: bool,
) -> Seq<Seq<char>> {
    let from_data = match data_dir {
        Some(d) => managed_binaries(join_path(d, "whisper.cpp"@), fallbacks),
        None => Seq::empty(),
    };
    let from_home = match home {
        Some(h) => managed_binaries(join_path(h, ".local/share/hyprwhspr-rs/whisper.cpp"@), fallbacks),
        None => Seq::empty(),
    };
    from_data + from_home + path_binaries(path_dirs, fallbacks)
}

/// Appends the binaries of a managed build rooted at `local`.
fn push_managed(out: &mut Vec<String>, local: &str, fallbacks: bool)
    ensures
        views(final(out)@) == views(old(out)@) + managed_binaries(local@, fallbacks),
{
    let ghost start = views(out@);
    let bin = path_join(local, "build/bin");
    push_joined(out, bin.as_str(), "whisper-cli");
    push_joined(out, local, "whisper-cli");
    if fallbacks {
        push_joined(out, bin.as_str(), "main");
        push_joined(out, bin.as_str(), "whisper");
        push_joined(out, local, "main");
        push_joined(out, local, "whisper");
    }
    assert(views(out@) =~= start + managed_binaries(local@, fallbacks));
}

/// The whisper binaries looked for, in order of preference (see `whisper_binary_paths`).
/// `data_dir` is the application's data directory, `home` the home directory and
/// `path_dirs` the directories of the search path.
pub fn whisper_binary_candidates(
    data_dir: Option<&str>,
    home: Option<&str>,
    path_dirs: &Vec<String>,
    include_fallbacks: bool,
) -> (r: Vec<String>)
    ensures
        views(r@) == whisper_binary_paths(
            opt_text(data_dir),
            opt_text(home),
            views(path_dirs@),
            include_fallbacks,
        ),
{
    let mut r: Vec<String> = Vec::new();
    if let Some(d) = data_dir {
        let local = path_join(d, "whisper.cpp");
        push_managed(&mut r, local.as_str(), include_fallbacks);
    }
    if let Some(h) = home {
        let local = path_join(h, ".local/share/hyprwhspr-rs/whisper.cpp");
        push_managed(&mut r, local.as_str(), include_fallbacks);
    }
    push_under_each(&mut r, path_dirs, "whisper-cli");
    if include_fallbacks {
        let ghost start = views(r@);
        let mut i: usize = 0;
        while i < path_dirs.len()
            invariant
                i <= path_dirs@.len(),
                views(r@) == start + fallback_path_binaries(views(path_dirs@).take(i as int)),
            decreases path_dirs@.len() - i,
        {
            push_joined(&mut r, path_dirs[i].as_str(), "whisper");
            push_joined(&mut r, path_dirs[i].as_str(), "main");
            let ghost taken = views(path_dirs@).take(i + 1);
            assert(taken.drop_last() =~= views(path_dirs@).take(i as int));
            assert(taken.last() == path_dirs@[i as int]@);
            assert(views(r@) =~= start + fallback_path_binaries(taken));
            i += 1;
        }
        assert(views(path_dirs@).take(path_dirs@.len() as int) =~= views(path_dirs@));
    }
    assert(views(r@) =~= whisper_binary_paths(
        opt_text(data_dir),
        opt_text(home),
        views(path_dirs@),
        include_fallbacks,
    ));
    r
}

/// The whisper binaries to try: the candidates of `whisper_binary_candidates` that
/// exist, in order, each once. `existing[i]` tells whether the `i`-th candidate exists.
pub fn discover_whisper_binary_candidates(
    data_dir: Option<&str>,
    home: Option<&str>,
    path_dirs: &Vec<String>,
    include_fallbacks: bool,
    existing: &[bool],
) -> (r: Vec<String>)
    ensures
        views(r@) == existing_unique(
            whisper_binary_paths(opt_text(data_dir), opt_text(home), views(path_dirs@), include_fallbacks),
            existing@,
            whisper_binary_paths(opt_text(data_dir), opt_text(home), views(path_dirs@), include_fallbacks).len(),
        ),
{
    let candidates = whisper_binary_candidates(data_dir, home, path_dirs, include_fallbacks);
    keep_existing_unique(&candidates, existing)
}

/// The places an assets directory may be, in order: the directory named by the
/// override variable, three layouts under the installation prefix, `assets` under the
/// source tree, and `assets` relative to the working directory.
pub open spec fn assets_dir_paths(
    env_dir: Option<Seq<char>>,
    exe_prefix: Option<Seq<char>>,
    manifest_dir: Option<Seq<char>>,
) -> Seq<Seq<char>> {
    let under_prefix = match exe_prefix {
        Some(p) => seq![
            join_path(p, "share/hyprwhspr-rs/assets"@),
            join_path(p, "share/assets"@),
            join_path(p, "lib/hyprwhspr-rs/share/assets"@),
        ],
        None => Seq::empty(),
    };
    let under_manifest = match manifest_dir {
        Some(m) => seq![join_path(m, "assets"@)],
        None => Seq::empty(),
    };
    opt_list(env_dir) + under_prefix + under_manifest + seq!["assets"@]
}

/// The places an assets directory may be (see `assets_dir_paths`). `env_dir` is the
/// value of the override variable, `exe_prefix` the directory above the one holding the
/// executable, `manifest_dir` the source tree.
pub fn assets_dir_candidates(
    env_dir: Option<&str>,
    exe_prefix: Option<&str>,
    manifest_dir: Option<&str>,
) -> (r: Vec<String>)
    ensures
        views(r@) == assets_dir_paths(opt_text(env_dir), opt_text(exe_prefix), opt_text(manifest_dir)),
{
    let mut r: Vec<String> = Vec::new();
    if let Some(d) = env_dir {
        push_text(&mut r, d);
    }
    if let Some(p) = exe_prefix {
        push_joined(&mut r, p, "share/hyprwhspr-rs/assets");
        push_joined(&mut r, p, "share/assets");
        push_joined(&mut r, p, "lib/hyprwhspr-rs/share/assets");
    }
    if let Some(m) = manifest_dir {
        push_joined(&mut r, m, "assets");
    }
    push_text(&mut r, "assets");
    assert(views(r@) =~= assets_dir_paths(
        opt_text(env_dir),
        opt_text(exe_prefix),
        opt_text(manifest_dir),
    ));
    r
}

/// The assets directory: the first candidate of `assets_dir_candidates` that is a
/// directory, or `assets` when none is. `is_dir[i]` tells whether the `i`-th candidate is
/// a directory.
pub fn discover_assets_dir(
    env_dir: Option<&str>,
    exe_prefix: Option<&str>,
    manifest_dir: Option<&str>,
    is_dir: &[bool],
) -> (r: String)
    ensures
        ({
            let c = assets_dir_paths(opt_text(env_dir), opt_text(exe_prefix), opt_text(manifest_dir));
            if exists|i: int| is_first_existing(is_dir@, c.len() as int, i) {
                exists|i: int| is_first_existing(is_dir@, c.len() as int, i) && r@ == c[i]
            } else {
                r@ == "assets"@
            }
        }),
{
    let candidates = assets_dir_candidates(env_dir, exe_prefix, manifest_dir);
    let ghost c = views(candidates@);
    assert(c.len() == candidates@.len());
    match first_existing_path(&candidates, is_dir) {
        Some(p) => {
            let ghost i = choose|i: int|
                is_first_existing(is_dir@, candidates@.len() as int, i) && p@ == candidates@[i]@;
            assert(c[i] == candidates@[i]@);
            assert(is_first_existing(is_dir@, c.len() as int, i));
            p
        },
        None => {
            assert(forall|i: int| !is_first_existing(is_dir@, c.len() as int, i));
            String::from_str("assets")
        },
    }
}


/// The file name of the path `p` is `name`: its last named component.
pub open spec fn file_name_is(p: Seq<char>, name: Seq<char>) -> bool {
    path_parts(p).len() > 0 && path_parts(p).last() == name
}

/// The file names a whisper binary is looked for under.
pub open spec fn is_binary_file_name(p: Seq<char>) -> bool {
    file_name_is(p, "whisper-cli"@) || file_name_is(p, "main"@) || file_name_is(p, "whisper"@)
}

/// Keeps the paths whose file name is `whisper-cli`.
pub open spec fn whisper_cli_only() -> spec_fn(Seq<char>) -> bool {
    |p: Seq<char>| file_name_is(p, "whisper-cli"@)
}

/// The paths of `c` that exist by `ex`, in order, each kept when no path kept before
/// it is the same path.
pub open spec fn keep_unique(c: Seq<Seq<char>>, ex: spec_fn(Seq<char>) -> bool) -> Seq<Seq<char>>
    decreases c.len(),
{
    if c.len() == 0 {
        Seq::empty()
    } else {
        let prev = keep_unique(c.drop_last(), ex);
        if ex(c.last()) && !has_same_path(prev, c.last()) {
            prev.push(c.last())
        } else {
            prev
        }
    }
}

/// With existence flags that follow `ex`, keeping the existing unique candidates is
/// `keep_unique`.
proof fn lemma_existing_unique_by_predicate(
    c: Seq<Seq<char>>,
    e: Seq<bool>,
    ex: spec_fn(Seq<char>) -> bool,
    n: nat,
)
    requires
        n <= c.len(),
        forall|i: int| 0 <= i < c.len() ==> flag(e, i) == ex(#[trigger] c[i]),
    ensures
        existing_unique(c, e, n) == keep_unique(c.take(n as int), ex),
    decreases n,
{
    if n > 0 {
        lemma_existing_unique_by_predicate(c, e, ex, (n - 1) as nat);
        assert(c.take(n as int).drop_last() =~= c.take(n - 1));
        assert(c.take(n as int).last() == c[n - 1]);
    }
}

/// Every kept path exists and is one of the candidates.
proof fn lemma_keep_unique_members(c: Seq<Seq<char>>, ex: spec_fn(Seq<char>) -> bool)
    ensures
        forall|i: int|
            0 <= i < keep_unique(c, ex).len() ==> ex(#[trigger] keep_unique(c, ex)[i])
                && c.contains(keep_unique(c, ex)[i]),
    decreases c.len(),
{
    if c.len() > 0 {
        lemma_keep_unique_members(c.drop_last(), ex);
        let prev = keep_unique(c.drop_last(), ex);
        assert forall|i: int|
            0 <= i < keep_unique(c, ex).len() implies ex(#[trigger] keep_unique(c, ex)[i])
            && c.contains(keep_unique(c, ex)[i]) by {
            if i < prev.len() {
                assert(keep_unique(c, ex)[i] == prev[i]);
                let j = choose|j: int| 0 <= j < c.drop_last().len() && c.drop_last()[j] == prev[i];
                assert(c[j] == prev[i]);
            } else {
                assert(c[c.len() - 1] == c.last());
            }
        }
    }
}

/// A filter that treats equal paths alike keeps a path like one of a list exactly when
/// it keeps that list's path.
proof fn lemma_same_path_in_filter(p: Seq<Seq<char>>, x: Seq<char>, w: spec_fn(Seq<char>) -> bool)
    requires
        w(x),
        forall|a: Seq<char>, b: Seq<char>| same_path(a, b) && #[trigger] w(a) ==> #[trigger] w(b),
    ensures
        has_same_path(p.filter(w), x) == has_same_path(p, x),
{
    let q = p.filter(w);
    if has_same_path(q, x) {
        let j = choose|j: int| 0 <= j < q.len() && same_path(q[j], x);
        assert(q.contains(q[j]));
        p.lemma_filter_contains_rev(w, q[j]);
        let i = choose|i: int| 0 <= i < p.len() && p[i] == q[j];
        assert(same_path(p[i], x));
    }
    if has_same_path(p, x) {
        let i = choose|i: int| 0 <= i < p.len() && same_path(p[i], x);
        assert(same_path(x, p[i]));
        assert(w(p[i]));
        p.lemma_filter_contains(w, i);
        let j = choose|j: int| 0 <= j < q.len() && q[j] == p[i];
        assert(same_path(q[j], x));
    }
}

/// Filtering the candidates first, or the kept paths afterwards, gives the same paths,
/// for a filter that treats equal paths alike.
proof fn lemma_keep_unique_filter(
    c: Seq<Seq<char>>,
    ex: spec_fn(Seq<char>) -> bool,
    w: spec_fn(Seq<char>) -> bool,
)
    requires
        forall|a: Seq<char>, b: Seq<char>| same_path(a, b) && #[trigger] w(a) ==> #[trigger] w(b),
    ensures
        keep_unique(c.filter(w), ex) == keep_unique(c, ex).filter(w),
    decreases c.len(),
{
    reveal(Seq::filter);
    if c.len() > 0 {
        let d = c.drop_last();
        let l = c.last();
        assert(c =~= d.push(l));
        d.lemma_filter_push(l, w);
        lemma_keep_unique_filter(d, ex, w);
        let p = keep_unique(d, ex);
        let q = d.filter(w);
        p.lemma_filter_push(l, w);
        if w(l) {
            lemma_same_path_in_filter(p, l, w);
            assert(q.push(l).drop_last() =~= q);
        }
    }
}

/// The file name of a simple name joined onto any directory is that name.
proof fn lemma_scan_append(s: Seq<char>, n: Seq<char>)
    requires
        forall|i: int| 0 <= i < n.len() ==> n[i] != '/',
    ensures
        scan_path(s + n) == (scan_path(s).0, scan_path(s).1 + n),
    decreases n.len(),
{
    if n.len() == 0 {
        assert(s + n =~= s);
        assert(scan_path(s).1 + n =~= scan_path(s).1);
    } else {
        lemma_scan_append(s, n.drop_last());
        assert((s + n).drop_last() =~= s + n.drop_last());
        assert((s + n).last() == n.last());
        assert((scan_path(s).1 + n.drop_last()).push(n.last()) =~= scan_path(s).1 + n);
    }
}

proof fn lemma_join_file_name(b: Seq<char>, n: Seq<char>)
    requires
        n.len() > 0,
        n != "."@,
        forall|i: int| 0 <= i < n.len() ==> n[i] != '/',
    ensures
        file_name_is(join_path(b, n), n),
{
    assert(n[0] != '/');
    let s = if b.len() == 0 || b.last() == '/' {
        b
    } else {
        b + seq!['/']
    };
    assert(join_path(b, n) == s + n);
    if b.len() > 0 && b.last() != '/' {
        assert(s.drop_last() =~= b);
        assert(s.last() == '/');
    }
    assert(scan_path(s).1 =~= Seq::<char>::empty());
    lemma_scan_append(s, n);
    assert(scan_path(s).1 + n =~= n);
}

proof fn lemma_binary_names_simple()
    ensures
        forall|b: Seq<char>| #[trigger] file_name_is(join_path(b, "whisper-cli"@), "whisper-cli"@),
        forall|b: Seq<char>| #[trigger] file_name_is(join_path(b, "main"@), "main"@),
        forall|b: Seq<char>| #[trigger] file_name_is(join_path(b, "whisper"@), "whisper"@),
        "whisper-cli"@ != "main"@,
        "whisper-cli"@ != "whisper"@,
{
    reveal_strlit("whisper-cli");
    reveal_strlit("main");
    reveal_strlit("whisper");
    reveal_strlit(".");
    assert forall|b: Seq<char>| #[trigger] file_name_is(join_path(b, "whisper-cli"@), "whisper-cli"@) by {
        lemma_join_file_name(b, "whisper-cli"@);
    }
    assert forall|b: Seq<char>| #[trigger] file_name_is(join_path(b, "main"@), "main"@) by {
        lemma_join_file_name(b, "main"@);
    }
    assert forall|b: Seq<char>| #[trigger] file_name_is(join_path(b, "whisper"@), "whisper"@) by {
        lemma_join_file_name(b, "whisper"@);
    }
    assert("whisper-cli"@.len() != "main"@.len());
    assert("whisper-cli"@.len() != "whisper"@.len());
}

proof fn lemma_filter_all(s: Seq<Seq<char>>, w: spec_fn(Seq<char>) -> bool)
    requires
        forall|i: int| 0 <= i < s.len() ==> w(#[trigger] s[i]),
    ensures
        s.filter(w) == s,
    decreases s.len(),
{
    reveal(Seq::filter);
    if s.len() > 0 {
        lemma_filter_all(s.drop_last(), w);
        assert(w(s[s.len() - 1]));
        assert(s.drop_last().push(s.last()) =~= s);
    }
}

proof fn lemma_filter_none(s: Seq<Seq<char>>, w: spec_fn(Seq<char>) -> bool)
    requires
        forall|i: int| 0 <= i < s.len() ==> !w(#[trigger] s[i]),
    ensures
        s.filter(w) == Seq::<Seq<char>>::empty(),
    decreases s.len(),
{
    reveal(Seq::filter);
    if s.len() > 0 {
        lemma_filter_none(s.drop_last(), w);
        assert(!w(s[s.len() - 1]));
    } else {
        assert(s =~= Seq::<Seq<char>>::empty());
    }
}

proof fn lemma_managed_filter(local: Seq<char>)
    ensures
        managed_binaries(local, true).filter(whisper_cli_only()) == managed_binaries(local, false),
        forall|i: int|
            0 <= i < managed_binaries(local, true).len() ==> is_binary_file_name(
                #[trigger] managed_binaries(local, true)[i],
            ),
        forall|i: int|
            0 <= i < managed_binaries(local, false).len() ==> file_name_is(
                #[trigger] managed_binaries(local, false)[i],
                "whisper-cli"@,
            ),
{
    lemma_binary_names_simple();
    let bin = join_path(local, "build/bin"@);
    let a = seq![join_path(bin, "whisper-cli"@), join_path(local, "whisper-cli"@)];
    let f = seq![
        join_path(bin, "main"@),
        join_path(bin, "whisper"@),
        join_path(local, "main"@),
        join_path(local, "whisper"@),
    ];
    assert(file_name_is(a[0], "whisper-cli"@) && file_name_is(a[1], "whisper-cli"@));
    assert(file_name_is(f[0], "main"@) && file_name_is(f[1], "whisper"@));
    assert(file_name_is(f[2], "main"@) && file_name_is(f[3], "whisper"@));
    lemma_filter_all(a, whisper_cli_only());
    lemma_filter_none(f, whisper_cli_only());
    Seq::filter_distributes_over_add(a, f, whisper_cli_only());
    assert(managed_binaries(local, true) == a + f);
    assert(managed_binaries(local, false) =~= a);
    assert(a + Seq::<Seq<char>>::empty() =~= a);
}

proof fn lemma_fallback_names(path_dirs: Seq<Seq<char>>)
    ensures
        forall|i: int|
            0 <= i < fallback_path_binaries(path_dirs).len() ==> !file_name_is(
                #[trigger] fallback_path_binaries(path_dirs)[i],
                "whisper-cli"@,
            ) && is_binary_file_name(fallback_path_binaries(path_dirs)[i]),
    decreases path_dirs.len(),
{
    lemma_binary_names_simple();
    if path_dirs.len() > 0 {
        lemma_fallback_names(path_dirs.drop_last());
        let prev = fallback_path_binaries(path_dirs.drop_last());
        let f = fallback_path_binaries(path_dirs);
        assert(f == prev + seq![
            join_path(path_dirs.last(), "whisper"@),
            join_path(path_dirs.last(), "main"@),
        ]);
        assert forall|i: int| 0 <= i < f.len() implies !file_name_is(
            #[trigger] f[i],
            "whisper-cli"@,
        ) && is_binary_file_name(f[i]) by {
            if i < prev.len() {
                assert(f[i] == prev[i]);
            } else if i == prev.len() {
                assert(f[i] == join_path(path_dirs.last(), "whisper"@));
                assert(file_name_is(join_path(path_dirs.last(), "whisper"@), "whisper"@));
            } else {
                assert(f[i] == join_path(path_dirs.last(), "main"@));
                assert(file_name_is(join_path(path_dirs.last(), "main"@), "main"@));
            }
        }
    }
}

proof fn lemma_binary_paths_filter(
    data_dir: Option<Seq<char>>,
    home: Option<Seq<char>>,
    path_dirs: Seq<Seq<char>>,
)
    ensures
        whisper_binary_paths(data_dir, home, path_dirs, true).filter(whisper_cli_only())
            == whisper_binary_paths(data_dir, home, path_dirs, false),
        forall|i: int|
            0 <= i < whisper_binary_paths(data_dir, home, path_dirs, true).len()
                ==> is_binary_file_name(
                #[trigger] whisper_binary_paths(data_dir, home, path_dirs, true)[i],
            ),
        forall|i: int|
            0 <= i < whisper_binary_paths(data_dir, home, path_dirs, false).len() ==> file_name_is(
                #[trigger] whisper_binary_paths(data_dir, home, path_dirs, false)[i],
                "whisper-cli"@,
            ),
{
    lemma_binary_names_simple();
    let w = whisper_cli_only();
    let empty = Seq::<Seq<char>>::empty();
    let dt = match data_dir {
        Some(d) => managed_binaries(join_path(d, "whisper.cpp"@), true),
        None => empty,
    };
    let df = match data_dir {
        Some(d) => managed_binaries(join_path(d, "whisper.cpp"@), false),
        None => empty,
    };
    let ht = match home {
        Some(h) => managed_binaries(join_path(h, ".local/share/hyprwhspr-rs/whisper.cpp"@), true),
        None => empty,
    };
    let hf = match home {
        Some(h) => managed_binaries(join_path(h, ".local/share/hyprwhspr-rs/whisper.cpp"@), false),
        None => empty,
    };
    match data_dir {
        Some(d) => lemma_managed_filter(join_path(d, "whisper.cpp"@)),
        None => lemma_filter_all(empty, w),
    }
    match home {
        Some(h) => lemma_managed_filter(join_path(h, ".local/share/hyprwhspr-rs/whisper.cpp"@)),
        None => lemma_filter_all(empty, w),
    }
    let under = paths_under_each(path_dirs, "whisper-cli"@);
    assert forall|i: int| 0 <= i < under.len() implies w(#[trigger] under[i]) by {
        assert(under[i] == join_path(path_dirs[i], "whisper-cli"@));
    }
    lemma_filter_all(under, w);
    lemma_fallback_names(path_dirs);
    let fb = fallback_path_binaries(path_dirs);
    lemma_filter_none(fb, w);
    Seq::filter_distributes_over_add(under, fb, w);
    assert(path_binaries(path_dirs, true) == under + fb);
    assert(path_binaries(path_dirs, false) =~= under);
    assert(under + empty =~= under);
    Seq::filter_distributes_over_add(dt, ht, w);
    Seq::filter_distributes_over_add(dt + ht, path_binaries(path_dirs, true), w);
    assert(whisper_binary_paths(data_dir, home, path_dirs, true) == dt + ht + path_binaries(
        path_dirs,
        true,
    ));
    assert(whisper_binary_paths(data_dir, home, path_dirs, false) == df + hf + path_binaries(
        path_dirs,
        false,
    ));
    let all_t = whisper_binary_paths(data_dir, home, path_dirs, true);
    assert forall|i: int| 0 <= i < all_t.len() implies is_binary_file_name(#[trigger] all_t[i]) by {
        if i < dt.len() {
            assert(all_t[i] == dt[i]);
        } else if i < dt.len() + ht.len() {
            assert(all_t[i] == ht[i - dt.len()]);
        } else {
            let k = i - dt.len() - ht.len();
            assert(all_t[i] == path_binaries(path_dirs, true)[k]);
            if k < under.len() {
                assert(path_binaries(path_dirs, true)[k] == under[k]);
                assert(w(under[k]));
            } else {
                assert(path_binaries(path_dirs, true)[k] == fb[k - under.len()]);
            }
        }
    }
    let all_f = whisper_binary_paths(data_dir, home, path_dirs, false);
    assert forall|i: int| 0 <= i < all_f.len() implies file_name_is(#[trigger] all_f[i], "whisper-cli"@) by {
        if i < df.len() {
            assert(all_f[i] == df[i]);
        } else if i < df.len() + hf.len() {
            assert(all_f[i] == hf[i - df.len()]);
        } else {
            let k = i - df.len() - hf.len();
            assert(all_f[i] == under[k]);
            assert(w(under[k]));
        }
    }
}

/// Discovery without the fallback names finds exactly the `whisper-cli` binaries that
/// discovery with them finds, in the same order, when both runs see the same files
/// (`ex` tells which paths exist, and each run's flags follow it). In both runs every
/// binary found exists, no path is found twice, and its file name is `whisper-cli`
/// without fallbacks and one of `whisper-cli`, `main`, `whisper` with them.
pub proof fn lemma_discovery_fallbacks(
    data_dir: Option<Seq<char>>,
    home: Option<Seq<char>>,
    path_dirs: Seq<Seq<char>>,
    ex: spec_fn(Seq<char>) -> bool,
    with_fallbacks: Seq<bool>,
    without_fallbacks: Seq<bool>,
)
    requires
        forall|i: int|
            0 <= i < whisper_binary_paths(data_dir, home, path_dirs, true).len() ==> flag(
                with_fallbacks,
                i,
            ) == ex(#[trigger] whisper_binary_paths(data_dir, home, path_dirs, true)[i]),
        forall|i: int|
            0 <= i < whisper_binary_paths(data_dir, home, path_dirs, false).len() ==> flag(
                without_fallbacks,
                i,
            ) == ex(#[trigger] whisper_binary_paths(data_dir, home, path_dirs, false)[i]),
    ensures
        ({
            let ct = whisper_binary_paths(data_dir, home, path_dirs, true);
            let cf = whisper_binary_paths(data_dir, home, path_dirs, false);
            let found_t = existing_unique(ct, with_fallbacks, ct.len());
            let found_f = existing_unique(cf, without_fallbacks, cf.len());
            &&& found_f == found_t.filter(whisper_cli_only())
            &&& forall|i: int| 0 <= i < found_t.len() ==> ex(#[trigger] found_t[i]) && is_binary_file_name(found_t[i])
            &&& forall|i: int| 0 <= i < found_f.len() ==> ex(#[trigger] found_f[i]) && file_name_is(found_f[i], "whisper-cli"@)
            &&& forall|i: int, j: int| 0 <= i < j < found_t.len() ==> !same_path(found_t[i], found_t[j])
            &&& forall|i: int, j: int| 0 <= i < j < found_f.len() ==> !same_path(found_f[i], found_f[j])
        }),
{
    let ct = whisper_binary_paths(data_dir, home, path_dirs, true);
    let cf = whisper_binary_paths(data_dir, home, path_dirs, false);
    let w = whisper_cli_only();
    lemma_existing_unique_by_predicate(ct, with_fallbacks, ex, ct.len());
    lemma_existing_unique_by_predicate(cf, without_fallbacks, ex, cf.len());
    assert(ct.take(ct.len() as int) =~= ct);
    assert(cf.take(cf.len() as int) =~= cf);
    lemma_binary_paths_filter(data_dir, home, path_dirs);
    assert forall|a: Seq<char>, b: Seq<char>| same_path(a, b) && #[trigger] w(a) implies #[trigger] w(b) by {}
    lemma_keep_unique_filter(ct, ex, w);
    lemma_keep_unique_members(ct, ex);
    lemma_keep_unique_members(cf, ex);
    let kt = keep_unique(ct, ex);
    let kf = keep_unique(cf, ex);
    assert forall|i: int| 0 <= i < kt.len() implies ex(#[trigger] kt[i]) && is_binary_file_name(kt[i]) by {
        let j = choose|j: int| 0 <= j < ct.len() && ct[j] == kt[i];
        assert(is_binary_file_name(ct[j]));
    }
    assert forall|i: int| 0 <= i < kf.len() implies ex(#[trigger] kf[i]) && file_name_is(kf[i], "whisper-cli"@) by {
        let j = choose|j: int| 0 <= j < cf.len() && cf[j] == kf[i];
        assert(file_name_is(cf[j], "whisper-cli"@));
    }
    lemma_existing_unique_distinct(ct, with_fallbacks, ct.len());
    lemma_existing_unique_distinct(cf, without_fallbacks, cf.len());
}

} // verus!
