use vstd::prelude::*;
use crate::text::{
    ascii_upper, char_to_ascii_upper, join, lemma_join_extend_last, lemma_join_push,
    lemma_words_shape, push_char, words,
};

verus! {

/// The server stacks that a project can be generated for.
#[derive(Clone, Copy, Debug, PartialEq, Eq, Structural)]
pub enum Stack {
    Node,
    Django,
    Flask,
    Fastapi,
}

/// A project about to be generated: its stack, the name it was given, the slug
/// derived from that name and the directory it is written to.
#[derive(Clone, Debug)]
pub struct Project {
    pub stack: Stack,
    pub name: String,
    pub slug: String,
    pub dir: String,
}

/// One file of a generated project: its path relative to the project
/// directory, its contents, and whether it is made executable.
#[derive(Clone, Debug)]
pub struct FileEntry {
    pub path: &'static str,
    pub contents: String,
    pub executable: bool,
}

impl View for FileEntry {
    type V = (Seq<char>, Seq<char>, bool);

    open spec fn view(&self) -> (Seq<char>, Seq<char>, bool) {
        (self.path@, self.contents@, self.executable)
    }
}

/// The view of each entry of a list of files, in order.
pub open spec fn entries_view(v: Seq<FileEntry>) -> Seq<(Seq<char>, Seq<char>, bool)> {
    v.map_values(|e: FileEntry| e@)
}

pub open spec fn spec_default_project_name(stack: Stack) -> Seq<char> {
    match stack {
        Stack::Node => "node-service"@,
        Stack::Django => "django-service"@,
        Stack::Flask => "flask-service"@,
        Stack::Fastapi => "fastapi-service"@,
    }
}

pub open spec fn spec_label(stack: Stack) -> Seq<char> {
    match stack {
        Stack::Node => "Node.js"@,
        Stack::Django => "Django"@,
        Stack::Flask => "Flask"@,
        Stack::Fastapi => "FastAPI"@,
    }
}

pub open spec fn spec_app_port(stack: Stack) -> u16 {
    match stack {
        Stack::Node => 3000,
        _ => 8000,
    }
}

/// A slug with each dash replaced by an underscore.
pub open spec fn spec_database_name(slug: Seq<char>) -> Seq<char> {
    slug.map_values(|c: char| if c == '-' { '_' } else { c })
}

pub open spec fn spec_uses_beat(stack: Stack) -> bool {
    stack != Stack::Node
}

pub open spec fn spec_uses_node_modules_volume(stack: Stack) -> bool {
    stack == Stack::Node
}

pub open spec fn spec_app_shell() -> Seq<char> {
    "docker compose exec app sh"@
}

impl Stack {
    /// The name a project of this stack gets when none is given.
    pub fn default_project_name(self) -> (r: &'static str)
        ensures
            r@ == spec_default_project_name(self),
    {
        match self {
            Stack::Node => "node-service",
            Stack::Django => "django-service",
            Stack::Flask => "flask-service",
            Stack::Fastapi => "fastapi-service",
        }
    }

    /// The name under which the stack is shown to people.
    pub fn label(self) -> (r: &'static str)
        ensures
            r@ == spec_label(self),
    {
        match self {
            Stack::Node => "Node.js",
            Stack::Django => "Django",
            Stack::Flask => "Flask",
            Stack::Fastapi => "FastAPI",
        }
    }

    /// The port the application listens on inside its container.
    pub fn app_port(self) -> (r: u16)
        ensures
            r == spec_app_port(self),
    {
        match self {
            Stack::Node => 3000,
            Stack::Django | Stack::Flask | Stack::Fastapi => 8000,
        }
    }

    /// The Postgres database name for a slug: the slug with `_` in place of `-`.
    pub fn database_name(self, slug: &str) -> (r: String)
        ensures
            r@ == spec_database_name(slug@),
    {
        let mut out = String::new();
        for ch in it: slug.chars()
            invariant
                it.seq() == slug@,
                out@ == spec_database_name(slug@.take(it.index())),
        {
            let ghost k: int = it.index();
            if ch == '-' {
                push_char(&mut out, '_');
            } else {
                push_char(&mut out, ch);
            }
            assert(out@ =~= spec_database_name(slug@.take(k + 1)));
        }
        assert(slug@.take(slug@.len() as int) =~= slug@);
        out
    }

    /// Whether the stack runs a Celery beat process beside its worker.
    pub fn uses_beat(self) -> (r: bool)
        ensures
            r == spec_uses_beat(self),
    {
        !matches!(self, Stack::Node)
    }

    /// Whether the containers share a volume for `node_modules`.
    pub fn uses_node_modules_volume(self) -> (r: bool)
        ensures
            r == spec_uses_node_modules_volume(self),
    {
        matches!(self, Stack::Node)
    }

    /// The command that opens a shell in the application container.
    pub fn app_shell(self) -> (r: &'static str)
        ensures
            r@ == spec_app_shell(),
    {
        "docker compose exec app sh"
    }
}

impl Project {
    /// The project name as a title: its words capitalized and joined by spaces.
    pub fn title_name(&self) -> (r: String)
        ensures
            r@ == spec_title_case(self.name@),
    {
        title_case(self.name.as_str())
    }
}

/// The separators between the words of a project name when it is shown as a title.
pub open spec fn is_title_sep(c: char) -> bool {
    c == '-' || c == '_' || c == ' '
}

pub open spec fn title_sep() -> spec_fn(char) -> bool {
    |c: char| is_title_sep(c)
}

pub open spec fn title_words(s: Seq<char>) -> Seq<Seq<char>> {
    words(s, title_sep())
}

/// A word with its first character in ASCII upper case.
pub open spec fn capitalize(w: Seq<char>) -> Seq<char> {
    if w.len() == 0 {
        w
    } else {
        seq![ascii_upper(w[0])] + w.drop_first()
    }
}

/// The words of `s` (split at `-`, `_` and space, empty pieces dropped),
/// each capitalized, joined by single spaces.
pub open spec fn spec_title_case(s: Seq<char>) -> Seq<char> {
    join(capitalized_words(s), ' ')
}

pub open spec fn capitalized_words(s: Seq<char>) -> Seq<Seq<char>> {
    title_words(s).map_values(|w: Seq<char>| capitalize(w))
}

fn title_case(name: &str) -> (r: String)
    ensures
        r@ == spec_title_case(name@),
{
    let mut out = String::new();
    let mut at_start = true;
    let mut any_word = false;
    for ch in it: name.chars()
        invariant
            it.seq() == name@,
            out@ == spec_title_case(name@.take(it.index())),
            at_start == (it.index() == 0 || is_title_sep(name@[it.index() - 1])),
            any_word == (title_words(name@.take(it.index())).len() > 0),
    {
        let ghost k: int = it.index();
        let ghost p = name@.take(k);
        let ghost s = name@.take(k + 1);
        let ghost ws = title_words(p);
        proof {
            assert(s.drop_last() =~= p);
            assert(s.last() == ch);
            lemma_words_shape(p, title_sep());
            if k > 0 {
                assert(p.last() == name@[k - 1]);
            }
        }
        if ch == '-' || ch == '_' || ch == ' ' {
            at_start = true;
        } else {
            if at_start {
                if any_word {
                    push_char(&mut out, ' ');
                }
                push_char(&mut out, char_to_ascii_upper(ch));
                proof {
                    assert(title_words(s) == ws.push(seq![ch]));
                    assert(capitalize(seq![ch]) =~= seq![ascii_upper(ch)]);
                    assert(capitalized_words(s) =~= capitalized_words(p).push(
                        seq![ascii_upper(ch)],
                    ));
                    lemma_join_push(capitalized_words(p), seq![ascii_upper(ch)], ' ');
                }
                any_word = true;
            } else {
                push_char(&mut out, ch);
                proof {
                    let last = ws.last();
                    assert(title_words(s) == ws.drop_last().push(last.push(ch)));
                    assert(last == ws[ws.len() - 1]);
                    assert(capitalize(last.push(ch)) =~= capitalize(last).push(ch));
                    let cw = capitalized_words(p);
                    assert(cw.last() == capitalize(last));
                    assert(capitalized_words(s) =~= cw.drop_last().push(cw.last().push(ch)));
                    lemma_join_extend_last(cw, ch, ' ');
                }
            }
            at_start = false;
        }
    }
    assert(name@.take(name@.len() as int) =~= name@);
    out
}

} // verus!
