use vstd::prelude::*;
use crate::generator::common::{
    lemma_lowered_words_shape, lower_all, lowered_words, slug_sep, slug_words, spec_sanitize_name,
};
use crate::generator::common::{option_view, spec_path_is_absolute, spec_path_join, spec_resolve_target_dir};
use crate::generator::shared::{spec_base_files, README_AFTER_NAME, README_HEAD};
use crate::generator::{spec_completion_message, spec_project_name};
use crate::generator::common::{spec_error_message, GeneratorError};
use crate::text::{decimal, digit_char};
use crate::project::{
    spec_app_shell, spec_label, spec_uses_beat, spec_uses_node_modules_volume,
    capitalize, capitalized_words, spec_database_name, spec_default_project_name, spec_title_case,
    title_sep, title_words, Project, Stack,
};
use crate::text::{
    has_infix, lemma_infix_middle, ascii_lower, ascii_upper, join, lemma_join_ends, lemma_join_push, lemma_words_append_word,
    lemma_words_shape, words,
};

verus! {

/// The words of a text that is one run of non-separators, and of that text
/// with a separator behind it or a word after a separator.
proof fn lemma_words_steps(n: Seq<char>, s: char, w: Seq<char>, is_sep: spec_fn(char) -> bool)
    requires
        is_sep(s),
        w.len() > 0,
        forall|j: int| 0 <= j < w.len() ==> !is_sep(#[trigger] w[j]),
    ensures
        words(w, is_sep) == seq![w],
        words(n.push(s), is_sep) == words(n, is_sep),
        words(n.push(s) + w, is_sep) == words(n, is_sep).push(w),
{
    lemma_words_append_word(Seq::empty(), w, is_sep);
    assert(Seq::<char>::empty() + w =~= w);
    assert(Seq::<Seq<char>>::empty().push(w) =~= seq![w]);
    assert(n.push(s).drop_last() =~= n);
    assert(n.push(s).last() == s);
    lemma_words_append_word(n.push(s), w, is_sep);
}

/// A name with no `-`, `_` or space is its own title: its first character in
/// ASCII upper case, every other character kept in its place.
pub proof fn law_title_of_one_word(w: Seq<char>)
    requires
        forall|i: int| 0 <= i < w.len() ==> #[trigger] w[i] != '-' && w[i] != '_' && w[i] != ' ',
    ensures
        spec_title_case(w).len() == w.len(),
        w.len() > 0 ==> spec_title_case(w)[0] == (if 'a' <= w[0] && w[0] <= 'z' {
            ((w[0] as int) - 32) as char
        } else {
            w[0]
        }),
        forall|i: int| 1 <= i < w.len() ==> #[trigger] spec_title_case(w)[i] == w[i],
{
    if w.len() == 0 {
        lemma_words_shape(w, title_sep());
        assert(spec_title_case(w) =~= Seq::<char>::empty());
    } else {
        assert forall|j: int| 0 <= j < w.len() implies !title_sep()(#[trigger] w[j]) by {}
        lemma_words_steps(Seq::empty(), '-', w, title_sep());
        assert(capitalized_words(w) =~= seq![capitalize(w)]);
        assert(spec_title_case(w) == capitalize(w));
    }
}

/// A separator (`-`, `_` or space) at the end of a name adds nothing to its title.
pub proof fn law_title_ignores_a_trailing_separator(n: Seq<char>, s: char)
    requires
        s == '-' || s == '_' || s == ' ',
    ensures
        spec_title_case(n.push(s)) == spec_title_case(n),
{
    assert(n.push(s).drop_last() =~= n);
    assert(n.push(s).last() == s);
    assert(title_words(n.push(s)) == title_words(n));
}

/// A word written after a separator becomes the title's last word, after a
/// single space (or alone when the name before it has no word).
pub proof fn law_title_of_an_appended_word(n: Seq<char>, s: char, w: Seq<char>)
    requires
        s == '-' || s == '_' || s == ' ',
        w.len() > 0,
        forall|i: int| 0 <= i < w.len() ==> #[trigger] w[i] != '-' && w[i] != '_' && w[i] != ' ',
    ensures
        spec_title_case(n.push(s) + w) == if spec_title_case(n).len() == 0 {
            spec_title_case(w)
        } else {
            spec_title_case(n) + seq![' '] + spec_title_case(w)
        },
{
    assert forall|j: int| 0 <= j < w.len() implies !title_sep()(#[trigger] w[j]) by {}
    lemma_words_steps(n, s, w, title_sep());
    lemma_words_shape(n, title_sep());
    let cw = capitalized_words(n);
    assert(capitalized_words(n.push(s) + w) =~= cw.push(capitalize(w)));
    assert(capitalized_words(w) =~= seq![capitalize(w)]);
    assert(spec_title_case(w) == capitalize(w));
    lemma_join_push(cw, capitalize(w), ' ');
    if cw.len() > 0 {
        assert forall|i: int| 0 <= i < cw.len() implies #[trigger] cw[i].len() > 0 by {
            assert(cw[i] == capitalize(title_words(n)[i]));
        }
        lemma_join_ends(cw, ' ');
        assert(join(cw, ' ').push(' ') + capitalize(w) =~= join(cw, ' ') + seq![' '] + capitalize(w));
    }
}

/// A name made only of ASCII letters and digits is its own slug, lowercased
/// character by character.
pub proof fn law_slug_of_one_word(w: Seq<char>)
    requires
        forall|i: int|
            0 <= i < w.len() ==> ('0' <= #[trigger] w[i] && w[i] <= '9') || ('a' <= w[i] && w[i]
                <= 'z') || ('A' <= w[i] && w[i] <= 'Z'),
    ensures
        spec_sanitize_name(w).len() == w.len(),
        forall|i: int|
            0 <= i < w.len() ==> #[trigger] spec_sanitize_name(w)[i] == (if 'A' <= w[i] && w[i]
                <= 'Z' {
                ((w[i] as int) + 32) as char
            } else {
                w[i]
            }),
{
    if w.len() == 0 {
        lemma_words_shape(w, slug_sep());
        assert(spec_sanitize_name(w) =~= Seq::<char>::empty());
    } else {
        assert forall|j: int| 0 <= j < w.len() implies !slug_sep()(#[trigger] w[j]) by {}
        lemma_words_steps(Seq::empty(), '-', w, slug_sep());
        assert(lowered_words(w) =~= seq![lower_all(w)]);
        assert(spec_sanitize_name(w) == lower_all(w));
    }
}

/// A character that is not an ASCII letter or digit at the end of a name adds
/// nothing to its slug.
pub proof fn law_slug_ignores_a_trailing_separator(n: Seq<char>, c: char)
    requires
        !(('0' <= c && c <= '9') || ('a' <= c && c <= 'z') || ('A' <= c && c <= 'Z')),
    ensures
        spec_sanitize_name(n.push(c)) == spec_sanitize_name(n),
{
    assert(n.push(c).drop_last() =~= n);
    assert(n.push(c).last() == c);
    assert(slug_words(n.push(c)) == slug_words(n));
}

/// A run of ASCII letters and digits written after another character becomes
/// the slug's last word, after a single dash (or alone when the name before it
/// has no letter or digit).
pub proof fn law_slug_of_an_appended_word(n: Seq<char>, c: char, w: Seq<char>)
    requires
        !(('0' <= c && c <= '9') || ('a' <= c && c <= 'z') || ('A' <= c && c <= 'Z')),
        w.len() > 0,
        forall|i: int|
            0 <= i < w.len() ==> ('0' <= #[trigger] w[i] && w[i] <= '9') || ('a' <= w[i] && w[i]
                <= 'z') || ('A' <= w[i] && w[i] <= 'Z'),
    ensures
        spec_sanitize_name(n.push(c) + w) == if spec_sanitize_name(n).len() == 0 {
            spec_sanitize_name(w)
        } else {
            spec_sanitize_name(n) + seq!['-'] + spec_sanitize_name(w)
        },
{
    assert forall|j: int| 0 <= j < w.len() implies !slug_sep()(#[trigger] w[j]) by {}
    lemma_words_steps(n, c, w, slug_sep());
    lemma_lowered_words_shape(n);
    let lw = lowered_words(n);
    assert(lowered_words(n.push(c) + w) =~= lw.push(lower_all(w)));
    assert(lowered_words(w) =~= seq![lower_all(w)]);
    assert(spec_sanitize_name(w) == lower_all(w));
    lemma_join_push(lw, lower_all(w), '-');
    if lw.len() > 0 {
        lemma_join_ends(lw, '-');
        assert(join(lw, '-').push('-') + lower_all(w) =~= join(lw, '-') + seq!['-'] + lower_all(w));
    }
}

/// The database name keeps every character of the slug in its place, with
/// each dash turned into an underscore.
pub proof fn law_database_name_is_the_slug_with_underscores(slug: Seq<char>)
    ensures
        spec_database_name(slug).len() == slug.len(),
        forall|i: int|
            0 <= i < slug.len() ==> #[trigger] spec_database_name(slug)[i] == (if slug[i] == '-' {
                '_'
            } else {
                slug[i]
            }),
{
}

/// Each stack's default name is its own: `node-service`, `django-service`,
/// `flask-service` and `fastapi-service`, no two alike; a project made without
/// a name gets its stack's default, and one made with a name keeps it.
pub proof fn law_default_names(stack: Stack, other: Stack, name: Seq<char>)
    ensures
        spec_default_project_name(Stack::Node) == "node-service"@,
        spec_default_project_name(Stack::Django) == "django-service"@,
        spec_default_project_name(Stack::Flask) == "flask-service"@,
        spec_default_project_name(Stack::Fastapi) == "fastapi-service"@,
        stack != other ==> spec_default_project_name(stack) != spec_default_project_name(other),
        spec_project_name(stack, None) == spec_default_project_name(stack),
        spec_project_name(stack, Some(name)) == name,
{
    reveal_strlit("node-service");
    reveal_strlit("django-service");
    reveal_strlit("flask-service");
    reveal_strlit("fastapi-service");
    if stack != other {
        let a = spec_default_project_name(stack);
        let b = spec_default_project_name(other);
        assert(a[0] != b[0] || a.len() != b.len() || a[1] != b[1]);
    }
}

/// An absolute `dir` is the target as given; a relative one is joined below
/// the working directory and nothing else; only without `dir` does the slug
/// name the target. The slug never matters when a `dir` is given.
pub proof fn law_target_dir(cwd: Seq<char>, slug: Seq<char>, other_slug: Seq<char>, dir: Seq<char>)
    ensures
        spec_path_is_absolute(dir) ==> spec_resolve_target_dir(cwd, slug, Some(dir)) == dir,
        !spec_path_is_absolute(dir) ==> spec_resolve_target_dir(cwd, slug, Some(dir))
            == spec_path_join(cwd, dir),
        spec_resolve_target_dir(cwd, slug, Some(dir)) == spec_resolve_target_dir(
            cwd,
            other_slug,
            Some(dir),
        ),
        spec_resolve_target_dir(cwd, slug, None) == spec_path_join(cwd, slug),
{
}

/// The README opens with the heading `# ` and the title of the project's name
/// as given (not of its slug), on a line of its own.
pub proof fn law_readme_heading(project: Project)
    ensures
        spec_base_files(project)[0].0 == "README.md"@,
        ({
            let readme = spec_base_files(project)[0].1;
            let title = spec_title_case(project.name@);
            &&& readme.len() >= title.len() + 3
            &&& readme.subrange(0, (title.len() + 3) as int) == seq!['#', ' '] + title + seq!['\n']
        }),
{
    reveal_strlit("# ");
    reveal_strlit("\n\nGenerated by DevStack for ");
    let readme = spec_base_files(project)[0].1;
    let title = spec_title_case(project.name@);
    assert(README_HEAD@ =~= seq!['#', ' ']);
    assert(README_AFTER_NAME@[0] == '\n');
    assert(readme.subrange(0, (title.len() + 3) as int) =~= seq!['#', ' '] + title + seq!['\n']);
}

/// The number that a text of decimal digits stands for.
pub open spec fn decimal_value(s: Seq<char>) -> int
    decreases s.len(),
{
    if s.len() == 0 {
        0
    } else {
        decimal_value(s.drop_last()) * 10 + (s.last() as int - 48)
    }
}

/// The numeral of a number is made of digits, starts with no `0` unless the
/// number is zero, and reads back as the number.
pub proof fn law_decimal_reads_back(n: nat)
    ensures
        decimal(n).len() > 0,
        forall|i: int| 0 <= i < decimal(n).len() ==> '0' <= #[trigger] decimal(n)[i] && decimal(n)[i] <= '9',
        decimal(n)[0] == '0' ==> n == 0,
        decimal_value(decimal(n)) == n,
    decreases n,
{
    if n < 10 {
        assert(decimal(n).drop_last() =~= Seq::<char>::empty());
        assert(decimal(n).last() as int == n + 48);
        assert(decimal_value(decimal(n)) == decimal_value(Seq::<char>::empty()) * 10 + (n + 48 - 48));
    } else {
        law_decimal_reads_back(n / 10);
        let d = decimal(n / 10);
        assert(decimal(n) == d.push(digit_char(n % 10)));
        assert(decimal(n).drop_last() =~= d);
        assert(decimal(n)[0] == d[0]);
        assert forall|i: int| 0 <= i < decimal(n).len() implies '0' <= #[trigger] decimal(n)[i]
            && decimal(n)[i] <= '9' by {
            if i < d.len() {
                assert(decimal(n)[i] == d[i]);
            }
        }
        assert(n / 10 > 0);
        assert(decimal(n).last() as int == n % 10 + 48);
        assert((n / 10) * 10 + n % 10 == n);
        assert(decimal_value(decimal(n)) == decimal_value(d) * 10 + (decimal(n).last() as int - 48));
    }
}

/// What each stack is called, whether it runs beat, whether it shares a
/// `node_modules` volume, and how a shell is opened in its app container.
pub proof fn law_stack_metadata(stack: Stack)
    ensures
        spec_label(Stack::Node) == "Node.js"@,
        spec_label(Stack::Django) == "Django"@,
        spec_label(Stack::Flask) == "Flask"@,
        spec_label(Stack::Fastapi) == "FastAPI"@,
        spec_uses_beat(stack) <==> stack != Stack::Node,
        spec_uses_node_modules_volume(stack) <==> stack == Stack::Node,
        spec_app_shell() == "docker compose exec app sh"@,
{
}

/// The closing message names the slug and the directory, tells the user to
/// change into that directory, and depends on nothing else.
pub proof fn law_completion_message(p: Project, q: Project)
    ensures
        ({
            let m = spec_completion_message(p.slug@, p.dir@);
            let first = "Created "@ + p.slug@ + " at "@ + p.dir@ + "\n"@;
            &&& m.len() >= first.len()
            &&& m.subrange(0, first.len() as int) == first
            &&& has_infix(m, "  cd "@ + p.dir@ + "\n"@)
        }),
        p.slug@ == q.slug@ && p.dir@ == q.dir@ ==> spec_completion_message(p.slug@, p.dir@)
            == spec_completion_message(q.slug@, q.dir@),
{
    reveal_strlit("Created ");
    reveal_strlit(" at ");
    reveal_strlit("\n");
    reveal_strlit("  cd ");
    reveal_strlit("\nNext steps:\n  cd ");
    reveal_strlit("\n  docker compose up --build\n  visit http://localhost\n");
    let m = spec_completion_message(p.slug@, p.dir@);
    let first = "Created "@ + p.slug@ + " at "@ + p.dir@ + "\n"@;
    assert(m.subrange(0, first.len() as int) =~= first);
    let x = "Created "@ + p.slug@ + " at "@ + p.dir@ + "\nNext steps:\n"@;
    reveal_strlit("\nNext steps:\n");
    let y = "  docker compose up --build\n  visit http://localhost\n"@;
    reveal_strlit("  docker compose up --build\n  visit http://localhost\n");
    assert(m =~= x + ("  cd "@ + p.dir@ + "\n"@) + y);
    lemma_infix_middle(x, "  cd "@ + p.dir@ + "\n"@, y);
}

/// The message of a refused empty slug asks for a letter or number; that of a
/// refused directory names the directory and points at `--force`.
pub proof fn law_error_messages(path: String)
    ensures
        spec_error_message(GeneratorError::EmptySlug)
            == "project name must include at least one letter or number"@,
        ({
            let m = spec_error_message(GeneratorError::TargetNotEmpty { path });
            let first = "target directory "@ + path@;
            &&& m.len() >= first.len()
            &&& m.subrange(0, first.len() as int) == first
            &&& has_infix(m, "use --force to continue"@)
        }),
{
    reveal_strlit("target directory ");
    reveal_strlit(" already exists and is not empty; use --force to continue");
    reveal_strlit(" already exists and is not empty; ");
    reveal_strlit("use --force to continue");
    let m = spec_error_message(GeneratorError::TargetNotEmpty { path });
    let first = "target directory "@ + path@;
    assert(m.subrange(0, first.len() as int) =~= first);
    assert(m =~= (first + " already exists and is not empty; "@) + "use --force to continue"@
        + Seq::<char>::empty());
    lemma_infix_middle(first + " already exists and is not empty; "@, "use --force to continue"@, Seq::empty());
}

} // verus!
