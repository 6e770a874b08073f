use vstd::prelude::*;
use crate::text::{
    ascii_lower, char_is_ascii_alnum, char_to_ascii_lower, is_ascii_alnum, join,
    lemma_join_ends, lemma_join_extend_last, lemma_join_push, lemma_words_shape, push_char, words,
};

verus! {

/// The characters that end a word of a slug: everything but ASCII letters and digits.
pub open spec fn slug_sep() -> spec_fn(char) -> bool {
    |c: char| !is_ascii_alnum(c)
}

/// The maximal runs of ASCII letters and digits in `s`.
pub open spec fn slug_words(s: Seq<char>) -> Seq<Seq<char>> {
    words(s, slug_sep())
}

/// A word with each character in ASCII lower case.
pub open spec fn lower_all(w: Seq<char>) -> Seq<char> {
    w.map_values(|c: char| ascii_lower(c))
}

pub open spec fn lowered_words(s: Seq<char>) -> Seq<Seq<char>> {
    slug_words(s).map_values(|w: Seq<char>| lower_all(w))
}

/// The slug of a name: its runs of ASCII letters and digits, lowercased,
/// joined by single dashes.
pub open spec fn spec_sanitize_name(s: Seq<char>) -> Seq<char> {
    join(lowered_words(s), '-')
}

/// `s` with every `-` at its start and at its end removed.
pub open spec fn trim_dashes_spec(s: Seq<char>) -> Seq<char>
    decreases s.len(),
{
    if s.len() > 0 && s[0] == '-' {
        trim_dashes_spec(s.drop_first())
    } else if s.len() > 0 && s.last() == '-' {
        trim_dashes_spec(s.drop_last())
    } else {
        s
    }
}

/// The text that the character loop of `sanitize_name` builds before trimming:
/// letters and digits lowercased, each run of other characters one dash.
closed spec fn dash_collapsed(s: Seq<char>) -> Seq<char>
    decreases s.len(),
{
    if s.len() == 0 {
        Seq::empty()
    } else {
        let p = s.drop_last();
        let c = s.last();
        if is_ascii_alnum(c) {
            dash_collapsed(p).push(ascii_lower(c))
        } else if p.len() > 0 && !is_ascii_alnum(p.last()) {
            dash_collapsed(p)
        } else {
            dash_collapsed(p).push('-')
        }
    }
}

closed spec fn lead_dash(s: Seq<char>) -> Seq<char> {
    if s.len() > 0 && !is_ascii_alnum(s[0]) {
        seq!['-']
    } else {
        Seq::empty()
    }
}

closed spec fn trail_dash(s: Seq<char>) -> Seq<char> {
    if slug_words(s).len() > 0 && s.len() > 0 && !is_ascii_alnum(s.last()) {
        seq!['-']
    } else {
        Seq::empty()
    }
}

/// Each lowered word is non-empty and made of lowercase ASCII letters and digits.
pub proof fn lemma_lowered_words_shape(s: Seq<char>)
    ensures
        lowered_words(s).len() == slug_words(s).len(),
        forall|i: int| 0 <= i < lowered_words(s).len() ==> #[trigger] lowered_words(s)[i].len() > 0,
        forall|i: int, j: int|
            0 <= i < lowered_words(s).len() && 0 <= j < lowered_words(s)[i].len() ==> {
                let c = #[trigger] lowered_words(s)[i][j];
                &&& is_ascii_alnum(c)
                &&& c == ascii_lower(c)
                &&& ('a' <= c && c <= 'z') || ('0' <= c && c <= '9')
            },
{
    lemma_words_shape(s, slug_sep());
    assert forall|i: int, j: int|
        0 <= i < lowered_words(s).len() && 0 <= j < lowered_words(s)[i].len() implies {
            let c = #[trigger] lowered_words(s)[i][j];
            &&& is_ascii_alnum(c)
            &&& c == ascii_lower(c)
            &&& ('a' <= c && c <= 'z') || ('0' <= c && c <= '9')
        } by {
        assert(lowered_words(s)[i] == lower_all(slug_words(s)[i]));
        assert(!slug_sep()(slug_words(s)[i][j]));
    }
}

proof fn lemma_dash_collapsed_shape(s: Seq<char>)
    ensures
        dash_collapsed(s) == lead_dash(s) + join(lowered_words(s), '-') + trail_dash(s),
    decreases s.len(),
{
    if s.len() > 0 {
        let p = s.drop_last();
        let c = s.last();
        lemma_dash_collapsed_shape(p);
        lemma_words_shape(p, slug_sep());
        lemma_lowered_words_shape(p);
        let ws = slug_words(p);
        let lw = lowered_words(p);
        if p.len() > 0 {
            assert(s[0] == p[0]);
            assert(p.last() == s[s.len() - 2]);
        }
        if is_ascii_alnum(c) {
            if p.len() > 0 && is_ascii_alnum(p.last()) {
                let last = ws.last();
                assert(slug_words(s) == ws.drop_last().push(last.push(c)));
                assert(lw.last() == lower_all(last));
                assert(lower_all(last.push(c)) =~= lower_all(last).push(ascii_lower(c)));
                assert(lowered_words(s) =~= lw.drop_last().push(lw.last().push(ascii_lower(c))));
                lemma_join_extend_last(lw, ascii_lower(c), '-');
                assert(dash_collapsed(s) =~= lead_dash(s) + join(lowered_words(s), '-') + trail_dash(s));
            } else {
                assert(slug_words(s) == ws.push(seq![c]));
                assert(lower_all(seq![c]) =~= seq![ascii_lower(c)]);
                assert(lowered_words(s) =~= lw.push(seq![ascii_lower(c)]));
                lemma_join_push(lw, seq![ascii_lower(c)], '-');
                if p.len() == 0 {
                    assert(dash_collapsed(s) =~= lead_dash(s) + join(lowered_words(s), '-') + trail_dash(s));
                } else if lw.len() == 0 {
                    assert(!is_ascii_alnum(p[0])) by {
                        assert(slug_sep()(p[0]));
                    }
                    assert(dash_collapsed(s) =~= lead_dash(s) + join(lowered_words(s), '-') + trail_dash(s));
                } else {
                    assert(dash_collapsed(s) =~= lead_dash(s) + join(lowered_words(s), '-') + trail_dash(s));
                }
            }
        } else {
            assert(slug_words(s) == ws);
            assert(lowered_words(s) == lw);
            if p.len() > 0 && !is_ascii_alnum(p.last()) {
                assert(dash_collapsed(s) =~= lead_dash(s) + join(lowered_words(s), '-') + trail_dash(s));
            } else if p.len() == 0 {
                assert(dash_collapsed(s) =~= lead_dash(s) + join(lowered_words(s), '-') + trail_dash(s));
            } else {
                assert(dash_collapsed(s) =~= lead_dash(s) + join(lowered_words(s), '-') + trail_dash(s));
            }
        }
    }
}

/// Leading dashes do not change the trimmed text.
proof fn lemma_trim_front(s: Seq<char>, a: int)
    requires
        0 <= a <= s.len(),
        forall|i: int| 0 <= i < a ==> s[i] == '-',
    ensures
        trim_dashes_spec(s) == trim_dashes_spec(s.subrange(a, s.len() as int)),
    decreases a,
{
    if a > 0 {
        lemma_trim_front(s.drop_first(), a - 1);
        assert(s.drop_first().subrange(a - 1, s.len() - 1) =~= s.subrange(a, s.len() as int));
    } else {
        assert(s.subrange(0, s.len() as int) =~= s);
    }
}

/// Trailing dashes behind a first and last character that are not dashes are trimmed away.
proof fn lemma_trim_back(t: Seq<char>, b: int)
    requires
        0 <= b <= t.len(),
        forall|i: int| b <= i < t.len() ==> t[i] == '-',
        b == 0 ==> t.len() == 0,
        b > 0 ==> t[0] != '-' && t[b - 1] != '-',
    ensures
        trim_dashes_spec(t) == t.subrange(0, b),
    decreases t.len(),
{
    if t.len() > b {
        lemma_trim_back(t.drop_last(), b);
        assert(t.drop_last().subrange(0, b) =~= t.subrange(0, b));
    } else {
        assert(t.subrange(0, b) =~= t);
    }
}

/// `str::trim_matches('-')`: the text without its leading and trailing dashes.
fn trim_dashes(s: &str) -> (r: String)
    ensures
        r@ == trim_dashes_spec(s@),
{
    let n = s.unicode_len();
    let mut start: usize = 0;
    while start < n && s.get_char(start) == '-'
        invariant
            n == s@.len(),
            start <= n,
            forall|i: int| 0 <= i < start ==> s@[i] == '-',
        decreases n - start,
    {
        start = start + 1;
    }
    let mut end: usize = n;
    while end > start && s.get_char(end - 1) == '-'
        invariant
            n == s@.len(),
            start <= end <= n,
            forall|i: int| end <= i < n ==> s@[i] == '-',
        decreases end,
    {
        end = end - 1;
    }
    proof {
        lemma_trim_front(s@, start as int);
        let t = s@.subrange(start as int, n as int);
        if end > start {
            assert(t[0] == s@[start as int]);
            assert(t[end - start - 1] == s@[end - 1]);
        }
        lemma_trim_back(t, end - start);
        assert(t.subrange(0, end - start) =~= s@.subrange(start as int, end as int));
    }
    String::from_str(s.substring_char(start, end))
}

/// The slug of a project name: ASCII letters and digits lowercased, every run of
/// other characters one dash, with no dash at either end.
pub fn sanitize_name(name: &str) -> (slug: String)
    ensures
        slug@ == spec_sanitize_name(name@),
{
    let mut slug = String::new();
    let mut previous_dash = false;
    for ch in it: name.chars()
        invariant
            it.seq() == name@,
            slug@ == dash_collapsed(name@.take(it.index())),
            previous_dash == (it.index() > 0 && !is_ascii_alnum(name@[it.index() - 1])),
    {
        let ghost k: int = it.index();
        proof {
            let s = name@.take(k + 1);
            assert(s.drop_last() =~= name@.take(k));
            assert(s.last() == ch);
            if k > 0 {
                assert(name@.take(k).last() == name@[k - 1]);
            }
        }
        if char_is_ascii_alnum(ch) {
            push_char(&mut slug, char_to_ascii_lower(ch));
            previous_dash = false;
        } else if !previous_dash {
            push_char(&mut slug, '-');
            previous_dash = true;
        }
    }
    proof {
        assert(name@.take(name@.len() as int) =~= name@);
        lemma_sanitize_trim(name@);
    }
    trim_dashes(slug.as_str())
}

/// Trimming the collapsed text leaves exactly the joined lowered words.
proof fn lemma_sanitize_trim(s: Seq<char>)
    ensures
        trim_dashes_spec(dash_collapsed(s)) == spec_sanitize_name(s),
{
    lemma_dash_collapsed_shape(s);
    lemma_lowered_words_shape(s);
    let lw = lowered_words(s);
    let j = join(lw, '-');
    let d = dash_collapsed(s);
    let a = lead_dash(s).len() as int;
    if lw.len() > 0 {
        lemma_join_ends(lw, '-');
        assert(lw[0][0] != '-');
        assert(lw.last() == lw[lw.len() - 1]);
        assert(lw.last().last() == lw[lw.len() - 1][lw[lw.len() - 1].len() - 1]);
        assert(lw.last().last() != '-');
        lemma_trim_front(d, a);
        let t = d.subrange(a, d.len() as int);
        assert(t =~= j + trail_dash(s));
        lemma_trim_back(t, j.len() as int);
        assert(t.subrange(0, j.len() as int) =~= j);
    } else {
        assert(trail_dash(s) =~= Seq::<char>::empty());
        lemma_trim_front(d, d.len() as int);
        assert(d.subrange(d.len() as int, d.len() as int) =~= Seq::<char>::empty());
        assert(j =~= Seq::<char>::empty());
    }
}

/// Why a project cannot be generated.
#[derive(Clone, Debug, PartialEq, Eq)]
pub enum GeneratorError {
    /// The name holds no ASCII letter or digit, so its slug is empty.
    EmptySlug,
    /// The target directory exists and holds entries, and `--force` was not given.
    TargetNotEmpty { path: String },
}

pub open spec fn spec_error_message(e: GeneratorError) -> Seq<char> {
    match e {
        GeneratorError::EmptySlug => "project name must include at least one letter or number"@,
        GeneratorError::TargetNotEmpty { path } => "target directory "@ + path@
            + " already exists and is not empty; use --force to continue"@,
    }
}

impl GeneratorError {
    /// The message shown to the user for this error.
    pub fn message(&self) -> (r: String)
        ensures
            r@ == spec_error_message(*self),
    {
        match self {
            GeneratorError::EmptySlug => String::from_str(
                "project name must include at least one letter or number",
            ),
            GeneratorError::TargetNotEmpty { path } => {
                let mut m = String::from_str("target directory ");
                m.append(path.as_str());
                m.append(" already exists and is not empty; use --force to continue");
                m
            },
        }
    }
}

/// A slug is accepted exactly when it is not empty.
pub fn validate_slug(slug: &str) -> (r: Result<(), GeneratorError>)
    ensures
        r is Err <==> slug@.len() == 0,
        r is Err ==> r == Err::<(), GeneratorError>(GeneratorError::EmptySlug),
{
    if slug.unicode_len() == 0 {
        return Err(GeneratorError::EmptySlug);
    }
    Ok(())
}

/// Whether `Path::is_absolute` holds of a path, on the platform the crate is built for.
pub uninterp spec fn spec_path_is_absolute(path: Seq<char>) -> bool;

/// The text of `Path::join` of two paths, on the platform the crate is built for.
pub uninterp spec fn spec_path_join(base: Seq<char>, part: Seq<char>) -> Seq<char>;

/// Calls `std::path::Path::is_absolute`; its result is named `spec_path_is_absolute`
/// of the path's text. What makes a path absolute depends on the platform and is
/// not stated here.
#[verifier::external_body]
fn path_is_absolute(path: &str) -> (r: bool)
    ensures
        r == spec_path_is_absolute(path@),
{
    std::path::Path::new(path).is_absolute()
}

/// Calls `std::path::Path::join` and returns the joined path as text; the result is
/// named `spec_path_join` of the two texts. The separator it inserts depends on the
/// platform and is not stated here.
#[verifier::external_body]
fn path_join(base: &str, part: &str) -> (r: String)
    ensures
        r@ == spec_path_join(base@, part@),
{
    std::path::Path::new(base).join(part).to_string_lossy().into_owned()
}

/// The text of an optional string.
pub open spec fn option_view(o: Option<String>) -> Option<Seq<char>> {
    match o {
        Some(s) => Some(s@),
        None => None,
    }
}

pub open spec fn spec_resolve_target_dir(
    cwd: Seq<char>,
    slug: Seq<char>,
    dir: Option<Seq<char>>,
) -> Seq<char> {
    match dir {
        Some(path) => if spec_path_is_absolute(path) {
            path
        } else {
            spec_path_join(cwd, path)
        },
        None => spec_path_join(cwd, slug),
    }
}

/// Where a project goes, before any path is joined: a directory taken as given,
/// or a relative path to put below the working directory.
#[derive(Clone, Debug, PartialEq, Eq)]
pub enum TargetDir {
    AsGiven(String),
    BelowCwd(String),
}

/// The choice `resolve_target_dir` makes once it knows whether the given
/// directory is absolute: an absolute `dir` as given, a relative one below the
/// working directory, and without `dir` the slug below the working directory.
pub fn choose_target_dir(slug: &str, dir: Option<String>, dir_is_absolute: bool) -> (r: TargetDir)
    ensures
        match dir {
            Some(d) => if dir_is_absolute {
                r matches TargetDir::AsGiven(p) && p@ == d@
            } else {
                r matches TargetDir::BelowCwd(p) && p@ == d@
            },
            None => r matches TargetDir::BelowCwd(p) && p@ == slug@,
        },
{
    match dir {
        Some(path) => {
            if dir_is_absolute {
                TargetDir::AsGiven(path)
            } else {
                TargetDir::BelowCwd(path)
            }
        },
        None => TargetDir::BelowCwd(String::from_str(slug)),
    }
}

/// The directory a project is written to: an absolute `dir` as given, a relative
/// one below `cwd`, and without `dir` the slug below `cwd`.
pub fn resolve_target_dir(cwd: &str, slug: &str, dir: Option<String>) -> (r: String)
    ensures
        r@ == spec_resolve_target_dir(cwd@, slug@, option_view(dir)),
{
    let dir_is_absolute = match &dir {
        Some(path) => path_is_absolute(path.as_str()),
        None => false,
    };
    match choose_target_dir(slug, dir, dir_is_absolute) {
        TargetDir::AsGiven(path) => path,
        TargetDir::BelowCwd(part) => path_join(cwd, part.as_str()),
    }
}

/// The decision of the target directory check: a directory that exists and holds
/// entries is refused unless `force` is set.
pub fn check_target_dir(path: &str, exists: bool, has_entries: bool, force: bool) -> (r: Result<
    (),
    GeneratorError,
>)
    ensures
        r is Err <==> (exists && has_entries && !force),
        r is Err ==> (r->Err_0 matches GeneratorError::TargetNotEmpty { path: p } && p@ == path@),
{
    if !exists {
        return Ok(());
    }
    if !has_entries || force {
        return Ok(());
    }
    Err(GeneratorError::TargetNotEmpty { path: String::from_str(path) })
}

} // verus!
