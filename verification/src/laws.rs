use vstd::prelude::*;
use crate::generator::common::{
    lemma_lowered_words_shape, lower_all, lowered_words, slug_sep, slug_words, spec_sanitize_name,
};
use crate::project::{
    capitalize, capitalized_words, is_title_sep, spec_database_name, spec_default_project_name,
    spec_title_case, spec_uses_beat,
    title_sep, title_words, Project, Stack,
};
use crate::generator::spec_project_files;
use crate::generator::shared::spec_env_file;
use crate::text::{
    ascii_lower, is_ascii_alnum, join, lemma_join_chars, lemma_join_ends, lemma_join_extend_last, lemma_join_push,
    lemma_join_no_double_sep, lemma_words_all_sep, lemma_words_of_join, lemma_words_shape, words,
};

verus! {

/// A character that may stand in a slug: a lowercase ASCII letter, a digit or a dash.
pub open spec fn is_slug_char(c: char) -> bool {
    ('a' <= c && c <= 'z') || ('0' <= c && c <= '9') || c == '-'
}

/// A well-formed slug: lowercase ASCII letters, digits and dashes, with no dash
/// at either end and never two dashes side by side.
pub open spec fn is_valid_slug(s: Seq<char>) -> bool {
    &&& forall|i: int| 0 <= i < s.len() ==> is_slug_char(#[trigger] s[i])
    &&& s.len() > 0 ==> s[0] != '-' && s.last() != '-'
    &&& forall|i: int| 0 <= i < s.len() - 1 ==> !(#[trigger] s[i] == '-' && s[i + 1] == '-')
}

/// Whatever the name, its slug is well formed.
pub proof fn law_sanitized_name_is_valid_slug(name: Seq<char>)
    ensures
        is_valid_slug(spec_sanitize_name(name)),
{
    lemma_lowered_words_shape(name);
    let lw = lowered_words(name);
    let s = spec_sanitize_name(name);
    lemma_join_chars(lw, '-', |c: char| is_slug_char(c));
    lemma_join_no_double_sep(lw, '-');
    if lw.len() > 0 {
        lemma_join_ends(lw, '-');
        assert(lw[0][0] != '-');
        assert(lw.last() == lw[lw.len() - 1]);
        assert(lw[lw.len() - 1][lw[lw.len() - 1].len() - 1] != '-');
    }
    assert forall|i: int| 0 <= i < s.len() implies is_slug_char(#[trigger] s[i]) by {
        assert((|c: char| is_slug_char(c))(s[i]));
    }
}

/// The slug of a name is empty exactly when the name holds no ASCII letter or digit.
pub proof fn law_slug_empty_iff_no_alnum(name: Seq<char>)
    ensures
        spec_sanitize_name(name).len() == 0 <==> forall|i: int|
            0 <= i < name.len() ==> !is_ascii_alnum(#[trigger] name[i]),
{
    lemma_lowered_words_shape(name);
    lemma_words_shape(name, slug_sep());
    let lw = lowered_words(name);
    if lw.len() > 0 {
        lemma_join_ends(lw, '-');
    }
    if forall|i: int| 0 <= i < name.len() ==> !is_ascii_alnum(#[trigger] name[i]) {
        assert forall|i: int| 0 <= i < name.len() implies slug_sep()(#[trigger] name[i]) by {}
        lemma_words_all_sep(name, slug_sep());
    }
    if spec_sanitize_name(name).len() == 0 {
        assert(slug_words(name).len() == 0);
        assert forall|i: int| 0 <= i < name.len() implies !is_ascii_alnum(#[trigger] name[i]) by {
            assert(slug_sep()(name[i]));
        }
    }
}

/// Making a slug of a slug changes nothing.
pub proof fn law_sanitize_is_idempotent(name: Seq<char>)
    ensures
        spec_sanitize_name(spec_sanitize_name(name)) == spec_sanitize_name(name),
{
    lemma_lowered_words_shape(name);
    let lw = lowered_words(name);
    let s = spec_sanitize_name(name);
    assert forall|i: int, j: int| 0 <= i < lw.len() && 0 <= j < lw[i].len() implies !slug_sep()(
        #[trigger] lw[i][j],
    ) by {}
    lemma_words_of_join(lw, '-', slug_sep());
    assert(slug_words(s) == lw);
    assert forall|i: int| 0 <= i < lw.len() implies #[trigger] lower_all(lw[i]) == lw[i] by {
        assert(lower_all(lw[i]) =~= lw[i]);
    }
    assert(lowered_words(s) =~= lw);
}

/// A text of slug characters that starts with no dash and has no double dash is
/// its words joined by dashes, followed by the dash it may end with.
proof fn lemma_slug_text_is_join(s: Seq<char>)
    requires
        forall|i: int| 0 <= i < s.len() ==> is_slug_char(#[trigger] s[i]),
        s.len() > 0 ==> s[0] != '-',
        forall|i: int| 0 <= i < s.len() - 1 ==> !(#[trigger] s[i] == '-' && s[i + 1] == '-'),
    ensures
        s == join(slug_words(s), '-') + (if s.len() > 0 && s.last() == '-' {
            seq!['-']
        } else {
            Seq::empty()
        }),
    decreases s.len(),
{
    if s.len() > 0 {
        let p = s.drop_last();
        let c = s.last();
        assert forall|i: int| 0 <= i < p.len() implies is_slug_char(#[trigger] p[i]) by {
            assert(p[i] == s[i]);
        }
        assert forall|i: int| 0 <= i < p.len() - 1 implies !(#[trigger] p[i] == '-' && p[i + 1]
            == '-') by {
            assert(p[i] == s[i]);
            assert(p[i + 1] == s[i + 1]);
        }
        if p.len() > 0 {
            assert(p[0] == s[0]);
            assert(p.last() == s[s.len() - 2]);
        }
        lemma_slug_text_is_join(p);
        lemma_words_shape(p, slug_sep());
        let ws = slug_words(p);
        assert(is_slug_char(s[s.len() - 1]));
        assert(s =~= p.push(c));
        if c == '-' {
            assert(slug_words(s) == ws);
            assert(s =~= join(slug_words(s), '-') + seq!['-']);
        } else {
            assert(is_ascii_alnum(c));
            if p.len() == 0 {
                assert(slug_words(s) == ws.push(seq![c]));
                lemma_join_push(ws, seq![c], '-');
                assert(s =~= join(slug_words(s), '-') + Seq::<char>::empty());
            } else if p.last() == '-' {
                assert(slug_words(s) == ws.push(seq![c]));
                lemma_join_push(ws, seq![c], '-');
                if ws.len() == 0 {
                    assert(p[0] != '-');
                    assert(slug_sep()(p[0]));
                    assert(false);
                }
                assert(p =~= join(ws, '-') + seq!['-']);
                assert(join(slug_words(s), '-') == join(ws, '-').push('-') + seq![c]);
                assert(s =~= join(slug_words(s), '-') + Seq::<char>::empty());
            } else {
                assert(is_ascii_alnum(p.last()));
                assert(slug_words(s) == ws.drop_last().push(ws.last().push(c)));
                lemma_join_extend_last(ws, c, '-');
                assert(s =~= join(slug_words(s), '-') + Seq::<char>::empty());
            }
        }
    }
}

/// A well-formed slug is its own slug.
pub proof fn law_valid_slug_is_unchanged(s: Seq<char>)
    requires
        is_valid_slug(s),
    ensures
        spec_sanitize_name(s) == s,
{
    lemma_slug_text_is_join(s);
    lemma_words_shape(s, slug_sep());
    let ws = slug_words(s);
    assert(s =~= join(ws, '-'));
    assert forall|i: int| 0 <= i < ws.len() implies #[trigger] lower_all(ws[i]) == ws[i] by {
        assert forall|j: int| 0 <= j < ws[i].len() implies ascii_lower(#[trigger] ws[i][j])
            == ws[i][j] by {
            assert(!slug_sep()(ws[i][j]));
            assert(is_slug_char(ws[i][j])) by {
                lemma_slug_word_chars(s, i, j);
            }
        }
        assert(lower_all(ws[i]) =~= ws[i]);
    }
    assert(lowered_words(s) =~= ws);
}

/// The default name of each stack is already a well-formed, non-empty slug, so a
/// project created without a name always gets one.
pub proof fn law_default_name_is_its_own_slug(stack: Stack)
    ensures
        is_valid_slug(spec_default_project_name(stack)),
        spec_default_project_name(stack).len() > 0,
        spec_sanitize_name(spec_default_project_name(stack)) == spec_default_project_name(stack),
{
    reveal_strlit("node-service");
    reveal_strlit("django-service");
    reveal_strlit("flask-service");
    reveal_strlit("fastapi-service");
    let s = spec_default_project_name(stack);
    assert(is_valid_slug(s));
    law_valid_slug_is_unchanged(s);
}

proof fn lemma_capitalized_words_facts(s: Seq<char>)
    ensures
        capitalized_words(s).len() == title_words(s).len(),
        forall|i: int| 0 <= i < capitalized_words(s).len() ==> #[trigger] capitalized_words(s)[i].len() > 0,
        forall|i: int, j: int|
            0 <= i < capitalized_words(s).len() && 0 <= j < capitalized_words(s)[i].len()
                ==> !is_title_sep(#[trigger] capitalized_words(s)[i][j]),
        forall|i: int| 0 <= i < capitalized_words(s).len() ==> capitalize(#[trigger] capitalized_words(s)[i]) == capitalized_words(s)[i],
{
    lemma_words_shape(s, title_sep());
    let tw = title_words(s);
    let cw = capitalized_words(s);
    assert forall|i: int| 0 <= i < cw.len() implies #[trigger] cw[i].len() > 0 by {
        assert(cw[i] == capitalize(tw[i]));
    }
    assert forall|i: int, j: int| 0 <= i < cw.len() && 0 <= j < cw[i].len() implies !is_title_sep(
        #[trigger] cw[i][j],
    ) by {
        assert(cw[i] == capitalize(tw[i]));
        assert(!title_sep()(tw[i][j]));
        if j > 0 {
            assert(cw[i][j] == tw[i][j]);
        }
    }
    assert forall|i: int| 0 <= i < cw.len() implies capitalize(#[trigger] cw[i]) == cw[i] by {
        assert(cw[i] == capitalize(tw[i]));
        assert(capitalize(cw[i]) =~= cw[i]);
    }
}

/// A title holds no dash or underscore, never two spaces side by side, and no
/// space at either end.
pub proof fn law_title_case_shape(name: Seq<char>)
    ensures
        forall|i: int| 0 <= i < spec_title_case(name).len() ==> {
            let c = #[trigger] spec_title_case(name)[i];
            c != '-' && c != '_'
        },
        forall|i: int| 0 <= i < spec_title_case(name).len() - 1 ==> !(#[trigger] spec_title_case(name)[i] == ' '
            && spec_title_case(name)[i + 1] == ' '),
        spec_title_case(name).len() > 0 ==> spec_title_case(name)[0] != ' ' && spec_title_case(name).last() != ' ',
{
    lemma_capitalized_words_facts(name);
    let cw = capitalized_words(name);
    let t = spec_title_case(name);
    let ok = |c: char| c != '-' && c != '_';
    assert forall|i: int, j: int| 0 <= i < cw.len() && 0 <= j < cw[i].len() implies ok(#[trigger] cw[i][j]) by {}
    lemma_join_chars(cw, ' ', ok);
    assert forall|i: int, j: int| 0 <= i < cw.len() && 0 <= j < cw[i].len() implies #[trigger] cw[i][j] != ' ' by {}
    lemma_join_no_double_sep(cw, ' ');
    if cw.len() > 0 {
        lemma_join_ends(cw, ' ');
        assert(cw[0][0] != ' ');
        assert(cw.last() == cw[cw.len() - 1]);
        assert(cw[cw.len() - 1][cw[cw.len() - 1].len() - 1] != ' ');
    }
    assert forall|i: int| 0 <= i < t.len() implies {
        let c = #[trigger] t[i];
        c != '-' && c != '_'
    } by {
        assert(ok(t[i]));
    }
}

/// Making a title of a title changes nothing.
pub proof fn law_title_case_is_idempotent(name: Seq<char>)
    ensures
        spec_title_case(spec_title_case(name)) == spec_title_case(name),
{
    lemma_capitalized_words_facts(name);
    let cw = capitalized_words(name);
    let t = spec_title_case(name);
    assert forall|i: int, j: int| 0 <= i < cw.len() && 0 <= j < cw[i].len() implies !title_sep()(
        #[trigger] cw[i][j],
    ) by {}
    lemma_words_of_join(cw, ' ', title_sep());
    assert(title_words(t) == cw);
    assert(capitalized_words(t) =~= cw);
}

/// The paths of a list of files, in order.
pub open spec fn file_paths(files: Seq<(Seq<char>, Seq<char>, bool)>) -> Seq<Seq<char>> {
    files.map_values(|f: (Seq<char>, Seq<char>, bool)| f.0)
}

/// The entries of `s` before index `k` all differ from `x`.
pub open spec fn absent_before(s: Seq<Seq<char>>, k: int, x: Seq<char>) -> bool
    decreases k,
{
    if k <= 0 {
        true
    } else {
        s[k - 1] != x && absent_before(s, k - 1, x)
    }
}

/// The entries of `s` before index `k` are pairwise different.
pub open spec fn distinct_upto(s: Seq<Seq<char>>, k: int) -> bool
    decreases k,
{
    if k <= 0 {
        true
    } else {
        absent_before(s, k - 1, s[k - 1]) && distinct_upto(s, k - 1)
    }
}

proof fn lemma_absent_before(s: Seq<Seq<char>>, k: int, x: Seq<char>, i: int)
    requires
        absent_before(s, k, x),
        0 <= i < k,
    ensures
        s[i] != x,
    decreases k,
{
    if i < k - 1 {
        lemma_absent_before(s, k - 1, x, i);
    }
}

proof fn lemma_distinct_upto(s: Seq<Seq<char>>, k: int)
    requires
        distinct_upto(s, k),
        k <= s.len(),
    ensures
        forall|i: int, j: int| 0 <= i < j < k ==> s[i] != s[j],
    decreases k,
{
    if k > 0 {
        lemma_distinct_upto(s, k - 1);
        assert forall|i: int, j: int| 0 <= i < j < k implies s[i] != s[j] by {
            if j == k - 1 {
                lemma_absent_before(s, k - 1, s[k - 1], i);
            }
        }
    }
}

#[verifier::rlimit(100)]
proof fn lemma_node_paths_distinct(project: Project)
    requires
        project.stack == Stack::Node,
    ensures
        distinct_upto(
            file_paths(spec_project_files(project)),
            file_paths(spec_project_files(project)).len() as int,
        ),
{
    let ps = file_paths(spec_project_files(project));
    reveal_with_fuel(distinct_upto, 27);
    reveal_with_fuel(absent_before, 27);
    reveal_strlit(".dockerignore");
    reveal_strlit(".env");
    reveal_strlit(".env.example");
    reveal_strlit(".github/workflows/ci.yml");
    reveal_strlit(".gitignore");
    reveal_strlit("Makefile");
    reveal_strlit("README.md");
    reveal_strlit("app/package.json");
    reveal_strlit("app/src/index.js");
    reveal_strlit("app/src/queue.js");
    reveal_strlit("app/src/worker.js");
    reveal_strlit("compose.yaml");
    reveal_strlit("docker/Dockerfile");
    reveal_strlit("docker/start.sh");
    reveal_strlit("docker/worker.sh");
    reveal_strlit("nginx/default.conf");
    assert(ps =~= seq!["README.md"@, ".env"@, ".env.example"@, ".gitignore"@, ".dockerignore"@, "Makefile"@, "compose.yaml"@, ".github/workflows/ci.yml"@, "nginx/default.conf"@, "docker/Dockerfile"@, "docker/start.sh"@, "docker/worker.sh"@, "app/package.json"@, "app/src/index.js"@, "app/src/queue.js"@, "app/src/worker.js"@]);
    assert(ps[0] == "README.md"@ && ps[0].len() == 9);
    assert(ps[1] == ".env"@ && ps[1].len() == 4);
    assert(ps[2] == ".env.example"@ && ps[2].len() == 12);
    assert(ps[3] == ".gitignore"@ && ps[3].len() == 10);
    assert(ps[4] == ".dockerignore"@ && ps[4].len() == 13);
    assert(ps[5] == "Makefile"@ && ps[5].len() == 8);
    assert(ps[6] == "compose.yaml"@ && ps[6].len() == 12);
    assert(ps[7] == ".github/workflows/ci.yml"@ && ps[7].len() == 24);
    assert(ps[8] == "nginx/default.conf"@ && ps[8].len() == 18);
    assert(ps[9] == "docker/Dockerfile"@ && ps[9].len() == 17);
    assert(ps[10] == "docker/start.sh"@ && ps[10].len() == 15);
    assert(ps[11] == "docker/worker.sh"@ && ps[11].len() == 16);
    assert(ps[12] == "app/package.json"@ && ps[12].len() == 16);
    assert(ps[13] == "app/src/index.js"@ && ps[13].len() == 16);
    assert(ps[14] == "app/src/queue.js"@ && ps[14].len() == 16);
    assert(ps[15] == "app/src/worker.js"@ && ps[15].len() == 17);
    assert(".env.example"@[0] != "compose.yaml"@[0]);
    assert("docker/Dockerfile"@[0] != "app/src/worker.js"@[0]);
    assert("docker/worker.sh"@[0] != "app/package.json"@[0]);
    assert("docker/worker.sh"@[0] != "app/src/index.js"@[0]);
    assert("docker/worker.sh"@[0] != "app/src/queue.js"@[0]);
    assert("app/package.json"@[4] != "app/src/index.js"@[4]);
    assert("app/package.json"@[4] != "app/src/queue.js"@[4]);
    assert("app/src/index.js"@[8] != "app/src/queue.js"@[8]);
    assert(distinct_upto(ps, ps.len() as int));
}

#[verifier::rlimit(100)]
proof fn lemma_django_paths_distinct(project: Project)
    requires
        project.stack == Stack::Django,
    ensures
        distinct_upto(
            file_paths(spec_project_files(project)),
            file_paths(spec_project_files(project)).len() as int,
        ),
{
    let ps = file_paths(spec_project_files(project));
    reveal_with_fuel(distinct_upto, 27);
    reveal_with_fuel(absent_before, 27);
    reveal_strlit(".dockerignore");
    reveal_strlit(".env");
    reveal_strlit(".env.example");
    reveal_strlit(".github/workflows/ci.yml");
    reveal_strlit(".gitignore");
    reveal_strlit("Makefile");
    reveal_strlit("README.md");
    reveal_strlit("app/config/__init__.py");
    reveal_strlit("app/config/asgi.py");
    reveal_strlit("app/config/celery.py");
    reveal_strlit("app/config/settings.py");
    reveal_strlit("app/config/urls.py");
    reveal_strlit("app/config/wsgi.py");
    reveal_strlit("app/core/__init__.py");
    reveal_strlit("app/core/apps.py");
    reveal_strlit("app/core/tasks.py");
    reveal_strlit("app/core/urls.py");
    reveal_strlit("app/core/views.py");
    reveal_strlit("app/manage.py");
    reveal_strlit("app/requirements.txt");
    reveal_strlit("compose.yaml");
    reveal_strlit("docker/Dockerfile");
    reveal_strlit("docker/beat.sh");
    reveal_strlit("docker/start.sh");
    reveal_strlit("docker/worker.sh");
    reveal_strlit("nginx/default.conf");
    assert(ps =~= seq!["README.md"@, ".env"@, ".env.example"@, ".gitignore"@, ".dockerignore"@, "Makefile"@, "compose.yaml"@, ".github/workflows/ci.yml"@, "nginx/default.conf"@, "docker/Dockerfile"@, "docker/start.sh"@, "docker/worker.sh"@, "docker/beat.sh"@, "app/requirements.txt"@, "app/manage.py"@, "app/config/__init__.py"@, "app/config/settings.py"@, "app/config/urls.py"@, "app/config/wsgi.py"@, "app/config/asgi.py"@, "app/config/celery.py"@, "app/core/__init__.py"@, "app/core/apps.py"@, "app/core/urls.py"@, "app/core/views.py"@, "app/core/tasks.py"@]);
    assert(ps[0] == "README.md"@ && ps[0].len() == 9);
    assert(ps[1] == ".env"@ && ps[1].len() == 4);
    assert(ps[2] == ".env.example"@ && ps[2].len() == 12);
    assert(ps[3] == ".gitignore"@ && ps[3].len() == 10);
    assert(ps[4] == ".dockerignore"@ && ps[4].len() == 13);
    assert(ps[5] == "Makefile"@ && ps[5].len() == 8);
    assert(ps[6] == "compose.yaml"@ && ps[6].len() == 12);
    assert(ps[7] == ".github/workflows/ci.yml"@ && ps[7].len() == 24);
    assert(ps[8] == "nginx/default.conf"@ && ps[8].len() == 18);
    assert(ps[9] == "docker/Dockerfile"@ && ps[9].len() == 17);
    assert(ps[10] == "docker/start.sh"@ && ps[10].len() == 15);
    assert(ps[11] == "docker/worker.sh"@ && ps[11].len() == 16);
    assert(ps[12] == "docker/beat.sh"@ && ps[12].len() == 14);
    assert(ps[13] == "app/requirements.txt"@ && ps[13].len() == 20);
    assert(ps[14] == "app/manage.py"@ && ps[14].len() == 13);
    assert(ps[15] == "app/config/__init__.py"@ && ps[15].len() == 22);
    assert(ps[16] == "app/config/settings.py"@ && ps[16].len() == 22);
    assert(ps[17] == "app/config/urls.py"@ && ps[17].len() == 18);
    assert(ps[18] == "app/config/wsgi.py"@ && ps[18].len() == 18);
    assert(ps[19] == "app/config/asgi.py"@ && ps[19].len() == 18);
    assert(ps[20] == "app/config/celery.py"@ && ps[20].len() == 20);
    assert(ps[21] == "app/core/__init__.py"@ && ps[21].len() == 20);
    assert(ps[22] == "app/core/apps.py"@ && ps[22].len() == 16);
    assert(ps[23] == "app/core/urls.py"@ && ps[23].len() == 16);
    assert(ps[24] == "app/core/views.py"@ && ps[24].len() == 17);
    assert(ps[25] == "app/core/tasks.py"@ && ps[25].len() == 17);
    assert(".env.example"@[0] != "compose.yaml"@[0]);
    assert(".dockerignore"@[0] != "app/manage.py"@[0]);
    assert("nginx/default.conf"@[0] != "app/config/urls.py"@[0]);
    assert("nginx/default.conf"@[0] != "app/config/wsgi.py"@[0]);
    assert("nginx/default.conf"@[0] != "app/config/asgi.py"@[0]);
    assert("docker/Dockerfile"@[0] != "app/core/views.py"@[0]);
    assert("docker/Dockerfile"@[0] != "app/core/tasks.py"@[0]);
    assert("docker/worker.sh"@[0] != "app/core/apps.py"@[0]);
    assert("docker/worker.sh"@[0] != "app/core/urls.py"@[0]);
    assert("app/requirements.txt"@[4] != "app/config/celery.py"@[4]);
    assert("app/requirements.txt"@[4] != "app/core/__init__.py"@[4]);
    assert("app/config/__init__.py"@[11] != "app/config/settings.py"@[11]);
    assert("app/config/urls.py"@[11] != "app/config/wsgi.py"@[11]);
    assert("app/config/urls.py"@[11] != "app/config/asgi.py"@[11]);
    assert("app/config/wsgi.py"@[11] != "app/config/asgi.py"@[11]);
    assert("app/config/celery.py"@[6] != "app/core/__init__.py"@[6]);
    assert("app/core/apps.py"@[9] != "app/core/urls.py"@[9]);
    assert("app/core/views.py"@[9] != "app/core/tasks.py"@[9]);
    assert(distinct_upto(ps, ps.len() as int));
}

#[verifier::rlimit(100)]
proof fn lemma_flask_paths_distinct(project: Project)
    requires
        project.stack == Stack::Flask,
    ensures
        distinct_upto(
            file_paths(spec_project_files(project)),
            file_paths(spec_project_files(project)).len() as int,
        ),
{
    let ps = file_paths(spec_project_files(project));
    reveal_with_fuel(distinct_upto, 27);
    reveal_with_fuel(absent_before, 27);
    reveal_strlit(".dockerignore");
    reveal_strlit(".env");
    reveal_strlit(".env.example");
    reveal_strlit(".github/workflows/ci.yml");
    reveal_strlit(".gitignore");
    reveal_strlit("Makefile");
    reveal_strlit("README.md");
    reveal_strlit("app/app/__init__.py");
    reveal_strlit("app/app/celery_app.py");
    reveal_strlit("app/app/config.py");
    reveal_strlit("app/app/routes.py");
    reveal_strlit("app/app/tasks.py");
    reveal_strlit("app/app/wsgi.py");
    reveal_strlit("app/requirements.txt");
    reveal_strlit("compose.yaml");
    reveal_strlit("docker/Dockerfile");
    reveal_strlit("docker/beat.sh");
    reveal_strlit("docker/start.sh");
    reveal_strlit("docker/worker.sh");
    reveal_strlit("nginx/default.conf");
    assert(ps =~= seq!["README.md"@, ".env"@, ".env.example"@, ".gitignore"@, ".dockerignore"@, "Makefile"@, "compose.yaml"@, ".github/workflows/ci.yml"@, "nginx/default.conf"@, "docker/Dockerfile"@, "docker/start.sh"@, "docker/worker.sh"@, "docker/beat.sh"@, "app/requirements.txt"@, "app/app/__init__.py"@, "app/app/config.py"@, "app/app/routes.py"@, "app/app/tasks.py"@, "app/app/celery_app.py"@, "app/app/wsgi.py"@]);
    assert(ps[0] == "README.md"@ && ps[0].len() == 9);
    assert(ps[1] == ".env"@ && ps[1].len() == 4);
    assert(ps[2] == ".env.example"@ && ps[2].len() == 12);
    assert(ps[3] == ".gitignore"@ && ps[3].len() == 10);
    assert(ps[4] == ".dockerignore"@ && ps[4].len() == 13);
    assert(ps[5] == "Makefile"@ && ps[5].len() == 8);
    assert(ps[6] == "compose.yaml"@ && ps[6].len() == 12);
    assert(ps[7] == ".github/workflows/ci.yml"@ && ps[7].len() == 24);
    assert(ps[8] == "nginx/default.conf"@ && ps[8].len() == 18);
    assert(ps[9] == "docker/Dockerfile"@ && ps[9].len() == 17);
    assert(ps[10] == "docker/start.sh"@ && ps[10].len() == 15);
    assert(ps[11] == "docker/worker.sh"@ && ps[11].len() == 16);
    assert(ps[12] == "docker/beat.sh"@ && ps[12].len() == 14);
    assert(ps[13] == "app/requirements.txt"@ && ps[13].len() == 20);
    assert(ps[14] == "app/app/__init__.py"@ && ps[14].len() == 19);
    assert(ps[15] == "app/app/config.py"@ && ps[15].len() == 17);
    assert(ps[16] == "app/app/routes.py"@ && ps[16].len() == 17);
    assert(ps[17] == "app/app/tasks.py"@ && ps[17].len() == 16);
    assert(ps[18] == "app/app/celery_app.py"@ && ps[18].len() == 21);
    assert(ps[19] == "app/app/wsgi.py"@ && ps[19].len() == 15);
    assert(".env.example"@[0] != "compose.yaml"@[0]);
    assert("docker/Dockerfile"@[0] != "app/app/config.py"@[0]);
    assert("docker/Dockerfile"@[0] != "app/app/routes.py"@[0]);
    assert("docker/start.sh"@[0] != "app/app/wsgi.py"@[0]);
    assert("docker/worker.sh"@[0] != "app/app/tasks.py"@[0]);
    assert("app/app/config.py"@[8] != "app/app/routes.py"@[8]);
    assert(distinct_upto(ps, ps.len() as int));
}

#[verifier::rlimit(100)]
proof fn lemma_fastapi_paths_distinct(project: Project)
    requires
        project.stack == Stack::Fastapi,
    ensures
        distinct_upto(
            file_paths(spec_project_files(project)),
            file_paths(spec_project_files(project)).len() as int,
        ),
{
    let ps = file_paths(spec_project_files(project));
    reveal_with_fuel(distinct_upto, 27);
    reveal_with_fuel(absent_before, 27);
    reveal_strlit(".dockerignore");
    reveal_strlit(".env");
    reveal_strlit(".env.example");
    reveal_strlit(".github/workflows/ci.yml");
    reveal_strlit(".gitignore");
    reveal_strlit("Makefile");
    reveal_strlit("README.md");
    reveal_strlit("app/app/config.py");
    reveal_strlit("app/app/main.py");
    reveal_strlit("app/app/worker.py");
    reveal_strlit("app/requirements.txt");
    reveal_strlit("compose.yaml");
    reveal_strlit("docker/Dockerfile");
    reveal_strlit("docker/beat.sh");
    reveal_strlit("docker/start.sh");
    reveal_strlit("docker/worker.sh");
    reveal_strlit("nginx/default.conf");
    assert(ps =~= seq!["README.md"@, ".env"@, ".env.example"@, ".gitignore"@, ".dockerignore"@, "Makefile"@, "compose.yaml"@, ".github/workflows/ci.yml"@, "nginx/default.conf"@, "docker/Dockerfile"@, "docker/start.sh"@, "docker/worker.sh"@, "docker/beat.sh"@, "app/requirements.txt"@, "app/app/config.py"@, "app/app/worker.py"@, "app/app/main.py"@]);
    assert(ps[0] == "README.md"@ && ps[0].len() == 9);
    assert(ps[1] == ".env"@ && ps[1].len() == 4);
    assert(ps[2] == ".env.example"@ && ps[2].len() == 12);
    assert(ps[3] == ".gitignore"@ && ps[3].len() == 10);
    assert(ps[4] == ".dockerignore"@ && ps[4].len() == 13);
    assert(ps[5] == "Makefile"@ && ps[5].len() == 8);
    assert(ps[6] == "compose.yaml"@ && ps[6].len() == 12);
    assert(ps[7] == ".github/workflows/ci.yml"@ && ps[7].len() == 24);
    assert(ps[8] == "nginx/default.conf"@ && ps[8].len() == 18);
    assert(ps[9] == "docker/Dockerfile"@ && ps[9].len() == 17);
    assert(ps[10] == "docker/start.sh"@ && ps[10].len() == 15);
    assert(ps[11] == "docker/worker.sh"@ && ps[11].len() == 16);
    assert(ps[12] == "docker/beat.sh"@ && ps[12].len() == 14);
    assert(ps[13] == "app/requirements.txt"@ && ps[13].len() == 20);
    assert(ps[14] == "app/app/config.py"@ && ps[14].len() == 17);
    assert(ps[15] == "app/app/worker.py"@ && ps[15].len() == 17);
    assert(ps[16] == "app/app/main.py"@ && ps[16].len() == 15);
    assert(".env.example"@[0] != "compose.yaml"@[0]);
    assert("docker/Dockerfile"@[0] != "app/app/config.py"@[0]);
    assert("docker/Dockerfile"@[0] != "app/app/worker.py"@[0]);
    assert("docker/start.sh"@[0] != "app/app/main.py"@[0]);
    assert("app/app/config.py"@[8] != "app/app/worker.py"@[8]);
    assert(distinct_upto(ps, ps.len() as int));
}

/// No two files of a project share a path, so none overwrites another.
pub proof fn law_project_paths_are_distinct(project: Project)
    ensures
        file_paths(spec_project_files(project)).no_duplicates(),
{
    let ps = file_paths(spec_project_files(project));
    match project.stack {
        Stack::Node => lemma_node_paths_distinct(project),
        Stack::Django => lemma_django_paths_distinct(project),
        Stack::Flask => lemma_flask_paths_distinct(project),
        Stack::Fastapi => lemma_fastapi_paths_distinct(project),
    }
    lemma_distinct_upto(ps, ps.len() as int);
}

/// The entries of `s` before index `k` all satisfy `p`.
pub open spec fn all_upto<A>(s: Seq<A>, k: int, p: spec_fn(A) -> bool) -> bool
    decreases k,
{
    if k <= 0 {
        true
    } else {
        p(s[k - 1]) && all_upto(s, k - 1, p)
    }
}

proof fn lemma_all_upto<A>(s: Seq<A>, k: int, p: spec_fn(A) -> bool)
    requires
        all_upto(s, k, p),
        k <= s.len(),
    ensures
        forall|i: int| 0 <= i < k ==> p(#[trigger] s[i]),
    decreases k,
{
    if k > 0 {
        lemma_all_upto(s, k - 1, p);
    }
}

/// A path that names a shell script: it ends in `.sh`.
pub open spec fn is_shell_script(path: Seq<char>) -> bool {
    path.len() >= 3 && path[path.len() - 3] == '.' && path[path.len() - 2] == 's'
        && path[path.len() - 1] == 'h'
}

#[verifier::rlimit(100)]
proof fn lemma_node_scripts_executable(project: Project)
    requires
        project.stack == Stack::Node,
    ensures
        all_upto(
            spec_project_files(project),
            spec_project_files(project).len() as int,
            |f: (Seq<char>, Seq<char>, bool)| is_shell_script(f.0) ==> f.2,
        ),
{
    let fs = spec_project_files(project);
    reveal_with_fuel(all_upto, 27);
    reveal_strlit(".dockerignore");
    reveal_strlit(".env");
    reveal_strlit(".env.example");
    reveal_strlit(".github/workflows/ci.yml");
    reveal_strlit(".gitignore");
    reveal_strlit("Makefile");
    reveal_strlit("README.md");
    reveal_strlit("app/package.json");
    reveal_strlit("app/src/index.js");
    reveal_strlit("app/src/queue.js");
    reveal_strlit("app/src/worker.js");
    reveal_strlit("compose.yaml");
    reveal_strlit("docker/Dockerfile");
    reveal_strlit("docker/start.sh");
    reveal_strlit("docker/worker.sh");
    reveal_strlit("nginx/default.conf");
    assert(fs[0].0 == "README.md"@ && fs[0].2 == false && fs[0].0.len() == 9);
    assert(fs[0].0[8] == 'd');
    assert(fs[1].0 == ".env"@ && fs[1].2 == false && fs[1].0.len() == 4);
    assert(fs[1].0[3] == 'v');
    assert(fs[2].0 == ".env.example"@ && fs[2].2 == false && fs[2].0.len() == 12);
    assert(fs[2].0[11] == 'e');
    assert(fs[3].0 == ".gitignore"@ && fs[3].2 == false && fs[3].0.len() == 10);
    assert(fs[3].0[9] == 'e');
    assert(fs[4].0 == ".dockerignore"@ && fs[4].2 == false && fs[4].0.len() == 13);
    assert(fs[4].0[12] == 'e');
    assert(fs[5].0 == "Makefile"@ && fs[5].2 == false && fs[5].0.len() == 8);
    assert(fs[5].0[7] == 'e');
    assert(fs[6].0 == "compose.yaml"@ && fs[6].2 == false && fs[6].0.len() == 12);
    assert(fs[6].0[11] == 'l');
    assert(fs[7].0 == ".github/workflows/ci.yml"@ && fs[7].2 == false && fs[7].0.len() == 24);
    assert(fs[7].0[23] == 'l');
    assert(fs[8].0 == "nginx/default.conf"@ && fs[8].2 == false && fs[8].0.len() == 18);
    assert(fs[8].0[17] == 'f');
    assert(fs[9].0 == "docker/Dockerfile"@ && fs[9].2 == false && fs[9].0.len() == 17);
    assert(fs[9].0[16] == 'e');
    assert(fs[10].0 == "docker/start.sh"@ && fs[10].2 == true && fs[10].0.len() == 15);
    assert(fs[10].0[14] == 'h');
    assert(fs[11].0 == "docker/worker.sh"@ && fs[11].2 == true && fs[11].0.len() == 16);
    assert(fs[11].0[15] == 'h');
    assert(fs[12].0 == "app/package.json"@ && fs[12].2 == false && fs[12].0.len() == 16);
    assert(fs[12].0[15] == 'n');
    assert(fs[13].0 == "app/src/index.js"@ && fs[13].2 == false && fs[13].0.len() == 16);
    assert(fs[13].0[15] == 's');
    assert(fs[14].0 == "app/src/queue.js"@ && fs[14].2 == false && fs[14].0.len() == 16);
    assert(fs[14].0[15] == 's');
    assert(fs[15].0 == "app/src/worker.js"@ && fs[15].2 == false && fs[15].0.len() == 17);
    assert(fs[15].0[16] == 's');
}

#[verifier::rlimit(100)]
proof fn lemma_django_scripts_executable(project: Project)
    requires
        project.stack == Stack::Django,
    ensures
        all_upto(
            spec_project_files(project),
            spec_project_files(project).len() as int,
            |f: (Seq<char>, Seq<char>, bool)| is_shell_script(f.0) ==> f.2,
        ),
{
    let fs = spec_project_files(project);
    reveal_with_fuel(all_upto, 27);
    reveal_strlit(".dockerignore");
    reveal_strlit(".env");
    reveal_strlit(".env.example");
    reveal_strlit(".github/workflows/ci.yml");
    reveal_strlit(".gitignore");
    reveal_strlit("Makefile");
    reveal_strlit("README.md");
    reveal_strlit("app/config/__init__.py");
    reveal_strlit("app/config/asgi.py");
    reveal_strlit("app/config/celery.py");
    reveal_strlit("app/config/settings.py");
    reveal_strlit("app/config/urls.py");
    reveal_strlit("app/config/wsgi.py");
    reveal_strlit("app/core/__init__.py");
    reveal_strlit("app/core/apps.py");
    reveal_strlit("app/core/tasks.py");
    reveal_strlit("app/core/urls.py");
    reveal_strlit("app/core/views.py");
    reveal_strlit("app/manage.py");
    reveal_strlit("app/requirements.txt");
    reveal_strlit("compose.yaml");
    reveal_strlit("docker/Dockerfile");
    reveal_strlit("docker/beat.sh");
    reveal_strlit("docker/start.sh");
    reveal_strlit("docker/worker.sh");
    reveal_strlit("nginx/default.conf");
    assert(fs[0].0 == "README.md"@ && fs[0].2 == false && fs[0].0.len() == 9);
    assert(fs[0].0[8] == 'd');
    assert(fs[1].0 == ".env"@ && fs[1].2 == false && fs[1].0.len() == 4);
    assert(fs[1].0[3] == 'v');
    assert(fs[2].0 == ".env.example"@ && fs[2].2 == false && fs[2].0.len() == 12);
    assert(fs[2].0[11] == 'e');
    assert(fs[3].0 == ".gitignore"@ && fs[3].2 == false && fs[3].0.len() == 10);
    assert(fs[3].0[9] == 'e');
    assert(fs[4].0 == ".dockerignore"@ && fs[4].2 == false && fs[4].0.len() == 13);
    assert(fs[4].0[12] == 'e');
    assert(fs[5].0 == "Makefile"@ && fs[5].2 == false && fs[5].0.len() == 8);
    assert(fs[5].0[7] == 'e');
    assert(fs[6].0 == "compose.yaml"@ && fs[6].2 == false && fs[6].0.len() == 12);
    assert(fs[6].0[11] == 'l');
    assert(fs[7].0 == ".github/workflows/ci.yml"@ && fs[7].2 == false && fs[7].0.len() == 24);
    assert(fs[7].0[23] == 'l');
    assert(fs[8].0 == "nginx/default.conf"@ && fs[8].2 == false && fs[8].0.len() == 18);
    assert(fs[8].0[17] == 'f');
    assert(fs[9].0 == "docker/Dockerfile"@ && fs[9].2 == false && fs[9].0.len() == 17);
    assert(fs[9].0[16] == 'e');
    assert(fs[10].0 == "docker/start.sh"@ && fs[10].2 == true && fs[10].0.len() == 15);
    assert(fs[10].0[14] == 'h');
    assert(fs[11].0 == "docker/worker.sh"@ && fs[11].2 == true && fs[11].0.len() == 16);
    assert(fs[11].0[15] == 'h');
    assert(fs[12].0 == "docker/beat.sh"@ && fs[12].2 == true && fs[12].0.len() == 14);
    assert(fs[12].0[13] == 'h');
    assert(fs[13].0 == "app/requirements.txt"@ && fs[13].2 == false && fs[13].0.len() == 20);
    assert(fs[13].0[19] == 't');
    assert(fs[14].0 == "app/manage.py"@ && fs[14].2 == true && fs[14].0.len() == 13);
    assert(fs[14].0[12] == 'y');
    assert(fs[15].0 == "app/config/__init__.py"@ && fs[15].2 == false && fs[15].0.len() == 22);
    assert(fs[15].0[21] == 'y');
    assert(fs[16].0 == "app/config/settings.py"@ && fs[16].2 == false && fs[16].0.len() == 22);
    assert(fs[16].0[21] == 'y');
    assert(fs[17].0 == "app/config/urls.py"@ && fs[17].2 == false && fs[17].0.len() == 18);
    assert(fs[17].0[17] == 'y');
    assert(fs[18].0 == "app/config/wsgi.py"@ && fs[18].2 == false && fs[18].0.len() == 18);
    assert(fs[18].0[17] == 'y');
    assert(fs[19].0 == "app/config/asgi.py"@ && fs[19].2 == false && fs[19].0.len() == 18);
    assert(fs[19].0[17] == 'y');
    assert(fs[20].0 == "app/config/celery.py"@ && fs[20].2 == false && fs[20].0.len() == 20);
    assert(fs[20].0[19] == 'y');
    assert(fs[21].0 == "app/core/__init__.py"@ && fs[21].2 == false && fs[21].0.len() == 20);
    assert(fs[21].0[19] == 'y');
    assert(fs[22].0 == "app/core/apps.py"@ && fs[22].2 == false && fs[22].0.len() == 16);
    assert(fs[22].0[15] == 'y');
    assert(fs[23].0 == "app/core/urls.py"@ && fs[23].2 == false && fs[23].0.len() == 16);
    assert(fs[23].0[15] == 'y');
    assert(fs[24].0 == "app/core/views.py"@ && fs[24].2 == false && fs[24].0.len() == 17);
    assert(fs[24].0[16] == 'y');
    assert(fs[25].0 == "app/core/tasks.py"@ && fs[25].2 == false && fs[25].0.len() == 17);
    assert(fs[25].0[16] == 'y');
}

#[verifier::rlimit(100)]
proof fn lemma_flask_scripts_executable(project: Project)
    requires
        project.stack == Stack::Flask,
    ensures
        all_upto(
            spec_project_files(project),
            spec_project_files(project).len() as int,
            |f: (Seq<char>, Seq<char>, bool)| is_shell_script(f.0) ==> f.2,
        ),
{
    let fs = spec_project_files(project);
    reveal_with_fuel(all_upto, 27);
    reveal_strlit(".dockerignore");
    reveal_strlit(".env");
    reveal_strlit(".env.example");
    reveal_strlit(".github/workflows/ci.yml");
    reveal_strlit(".gitignore");
    reveal_strlit("Makefile");
    reveal_strlit("README.md");
    reveal_strlit("app/app/__init__.py");
    reveal_strlit("app/app/celery_app.py");
    reveal_strlit("app/app/config.py");
    reveal_strlit("app/app/routes.py");
    reveal_strlit("app/app/tasks.py");
    reveal_strlit("app/app/wsgi.py");
    reveal_strlit("app/requirements.txt");
    reveal_strlit("compose.yaml");
    reveal_strlit("docker/Dockerfile");
    reveal_strlit("docker/beat.sh");
    reveal_strlit("docker/start.sh");
    reveal_strlit("docker/worker.sh");
    reveal_strlit("nginx/default.conf");
    assert(fs[0].0 == "README.md"@ && fs[0].2 == false && fs[0].0.len() == 9);
    assert(fs[0].0[8] == 'd');
    assert(fs[1].0 == ".env"@ && fs[1].2 == false && fs[1].0.len() == 4);
    assert(fs[1].0[3] == 'v');
    assert(fs[2].0 == ".env.example"@ && fs[2].2 == false && fs[2].0.len() == 12);
    assert(fs[2].0[11] == 'e');
    assert(fs[3].0 == ".gitignore"@ && fs[3].2 == false && fs[3].0.len() == 10);
    assert(fs[3].0[9] == 'e');
    assert(fs[4].0 == ".dockerignore"@ && fs[4].2 == false && fs[4].0.len() == 13);
    assert(fs[4].0[12] == 'e');
    assert(fs[5].0 == "Makefile"@ && fs[5].2 == false && fs[5].0.len() == 8);
    assert(fs[5].0[7] == 'e');
    assert(fs[6].0 == "compose.yaml"@ && fs[6].2 == false && fs[6].0.len() == 12);
    assert(fs[6].0[11] == 'l');
    assert(fs[7].0 == ".github/workflows/ci.yml"@ && fs[7].2 == false && fs[7].0.len() == 24);
    assert(fs[7].0[23] == 'l');
    assert(fs[8].0 == "nginx/default.conf"@ && fs[8].2 == false && fs[8].0.len() == 18);
    assert(fs[8].0[17] == 'f');
    assert(fs[9].0 == "docker/Dockerfile"@ && fs[9].2 == false && fs[9].0.len() == 17);
    assert(fs[9].0[16] == 'e');
    assert(fs[10].0 == "docker/start.sh"@ && fs[10].2 == true && fs[10].0.len() == 15);
    assert(fs[10].0[14] == 'h');
    assert(fs[11].0 == "docker/worker.sh"@ && fs[11].2 == true && fs[11].0.len() == 16);
    assert(fs[11].0[15] == 'h');
    assert(fs[12].0 == "docker/beat.sh"@ && fs[12].2 == true && fs[12].0.len() == 14);
    assert(fs[12].0[13] == 'h');
    assert(fs[13].0 == "app/requirements.txt"@ && fs[13].2 == false && fs[13].0.len() == 20);
    assert(fs[13].0[19] == 't');
    assert(fs[14].0 == "app/app/__init__.py"@ && fs[14].2 == false && fs[14].0.len() == 19);
    assert(fs[14].0[18] == 'y');
    assert(fs[15].0 == "app/app/config.py"@ && fs[15].2 == false && fs[15].0.len() == 17);
    assert(fs[15].0[16] == 'y');
    assert(fs[16].0 == "app/app/routes.py"@ && fs[16].2 == false && fs[16].0.len() == 17);
    assert(fs[16].0[16] == 'y');
    assert(fs[17].0 == "app/app/tasks.py"@ && fs[17].2 == false && fs[17].0.len() == 16);
    assert(fs[17].0[15] == 'y');
    assert(fs[18].0 == "app/app/celery_app.py"@ && fs[18].2 == false && fs[18].0.len() == 21);
    assert(fs[18].0[20] == 'y');
    assert(fs[19].0 == "app/app/wsgi.py"@ && fs[19].2 == false && fs[19].0.len() == 15);
    assert(fs[19].0[14] == 'y');
}

#[verifier::rlimit(100)]
proof fn lemma_fastapi_scripts_executable(project: Project)
    requires
        project.stack == Stack::Fastapi,
    ensures
        all_upto(
            spec_project_files(project),
            spec_project_files(project).len() as int,
            |f: (Seq<char>, Seq<char>, bool)| is_shell_script(f.0) ==> f.2,
        ),
{
    let fs = spec_project_files(project);
    reveal_with_fuel(all_upto, 27);
    reveal_strlit(".dockerignore");
    reveal_strlit(".env");
    reveal_strlit(".env.example");
    reveal_strlit(".github/workflows/ci.yml");
    reveal_strlit(".gitignore");
    reveal_strlit("Makefile");
    reveal_strlit("README.md");
    reveal_strlit("app/app/config.py");
    reveal_strlit("app/app/main.py");
    reveal_strlit("app/app/worker.py");
    reveal_strlit("app/requirements.txt");
    reveal_strlit("compose.yaml");
    reveal_strlit("docker/Dockerfile");
    reveal_strlit("docker/beat.sh");
    reveal_strlit("docker/start.sh");
    reveal_strlit("docker/worker.sh");
    reveal_strlit("nginx/default.conf");
    assert(fs[0].0 == "README.md"@ && fs[0].2 == false && fs[0].0.len() == 9);
    assert(fs[0].0[8] == 'd');
    assert(fs[1].0 == ".env"@ && fs[1].2 == false && fs[1].0.len() == 4);
    assert(fs[1].0[3] == 'v');
    assert(fs[2].0 == ".env.example"@ && fs[2].2 == false && fs[2].0.len() == 12);
    assert(fs[2].0[11] == 'e');
    assert(fs[3].0 == ".gitignore"@ && fs[3].2 == false && fs[3].0.len() == 10);
    assert(fs[3].0[9] == 'e');
    assert(fs[4].0 == ".dockerignore"@ && fs[4].2 == false && fs[4].0.len() == 13);
    assert(fs[4].0[12] == 'e');
    assert(fs[5].0 == "Makefile"@ && fs[5].2 == false && fs[5].0.len() == 8);
    assert(fs[5].0[7] == 'e');
    assert(fs[6].0 == "compose.yaml"@ && fs[6].2 == false && fs[6].0.len() == 12);
    assert(fs[6].0[11] == 'l');
    assert(fs[7].0 == ".github/workflows/ci.yml"@ && fs[7].2 == false && fs[7].0.len() == 24);
    assert(fs[7].0[23] == 'l');
    assert(fs[8].0 == "nginx/default.conf"@ && fs[8].2 == false && fs[8].0.len() == 18);
    assert(fs[8].0[17] == 'f');
    assert(fs[9].0 == "docker/Dockerfile"@ && fs[9].2 == false && fs[9].0.len() == 17);
    assert(fs[9].0[16] == 'e');
    assert(fs[10].0 == "docker/start.sh"@ && fs[10].2 == true && fs[10].0.len() == 15);
    assert(fs[10].0[14] == 'h');
    assert(fs[11].0 == "docker/worker.sh"@ && fs[11].2 == true && fs[11].0.len() == 16);
    assert(fs[11].0[15] == 'h');
    assert(fs[12].0 == "docker/beat.sh"@ && fs[12].2 == true && fs[12].0.len() == 14);
    assert(fs[12].0[13] == 'h');
    assert(fs[13].0 == "app/requirements.txt"@ && fs[13].2 == false && fs[13].0.len() == 20);
    assert(fs[13].0[19] == 't');
    assert(fs[14].0 == "app/app/config.py"@ && fs[14].2 == false && fs[14].0.len() == 17);
    assert(fs[14].0[16] == 'y');
    assert(fs[15].0 == "app/app/worker.py"@ && fs[15].2 == false && fs[15].0.len() == 17);
    assert(fs[15].0[16] == 'y');
    assert(fs[16].0 == "app/app/main.py"@ && fs[16].2 == false && fs[16].0.len() == 15);
    assert(fs[16].0[14] == 'y');
}

/// Every shell script of a project is written executable.
pub proof fn law_shell_scripts_are_executable(project: Project)
    ensures
        forall|i: int|
            0 <= i < spec_project_files(project).len() && is_shell_script(
                #[trigger] spec_project_files(project)[i].0,
            ) ==> spec_project_files(project)[i].2,
{
    let fs = spec_project_files(project);
    let p = |f: (Seq<char>, Seq<char>, bool)| is_shell_script(f.0) ==> f.2;
    match project.stack {
        Stack::Node => lemma_node_scripts_executable(project),
        Stack::Django => lemma_django_scripts_executable(project),
        Stack::Flask => lemma_flask_scripts_executable(project),
        Stack::Fastapi => lemma_fastapi_scripts_executable(project),
    }
    lemma_all_upto(fs, fs.len() as int, p);
    assert forall|i: int| 0 <= i < fs.len() && is_shell_script(#[trigger] fs[i].0) implies fs[i].2 by {
        assert(p(fs[i]));
    }
}

/// Every project, whatever its stack, gets a README, both env files, the ignore
/// files, a Makefile, a compose file, a CI workflow, an nginx site, a Dockerfile
/// and the scripts that start the app and its worker.
pub proof fn law_every_project_has_the_essentials(project: Project)
    ensures
        ({
            let ps = file_paths(spec_project_files(project));
            &&& ps.contains("README.md"@)
            &&& ps.contains(".env"@)
            &&& ps.contains(".env.example"@)
            &&& ps.contains(".gitignore"@)
            &&& ps.contains(".dockerignore"@)
            &&& ps.contains("Makefile"@)
            &&& ps.contains("compose.yaml"@)
            &&& ps.contains(".github/workflows/ci.yml"@)
            &&& ps.contains("nginx/default.conf"@)
            &&& ps.contains("docker/Dockerfile"@)
            &&& ps.contains("docker/start.sh"@)
            &&& ps.contains("docker/worker.sh"@)
        }),
{
    let ps = file_paths(spec_project_files(project));
    assert(ps[0] == "README.md"@);
    assert(ps[1] == ".env"@);
    assert(ps[2] == ".env.example"@);
    assert(ps[3] == ".gitignore"@);
    assert(ps[4] == ".dockerignore"@);
    assert(ps[5] == "Makefile"@);
    assert(ps[6] == "compose.yaml"@);
    assert(ps[7] == ".github/workflows/ci.yml"@);
    assert(ps[8] == "nginx/default.conf"@);
    assert(ps[9] == "docker/Dockerfile"@);
    assert(ps[10] == "docker/start.sh"@);
    assert(ps[11] == "docker/worker.sh"@);
}

/// `.env` and `.env.example` are written with the same contents.
pub proof fn law_env_example_matches_env(project: Project)
    ensures
        spec_project_files(project)[1].0 == ".env"@,
        spec_project_files(project)[2].0 == ".env.example"@,
        spec_project_files(project)[1].1 == spec_project_files(project)[2].1,
        spec_project_files(project)[1].1 == spec_env_file(project.stack, project.slug@),
{
}

/// A project gets a beat script exactly when its stack runs a beat process.
#[verifier::rlimit(50)]
pub proof fn law_beat_script_iff_stack_uses_beat(project: Project)
    ensures
        file_paths(spec_project_files(project)).contains("docker/beat.sh"@) <==> spec_uses_beat(
            project.stack,
        ),
{
    let ps = file_paths(spec_project_files(project));
    if spec_uses_beat(project.stack) {
        assert(ps[12] == "docker/beat.sh"@);
    } else {
        reveal_strlit("docker/beat.sh");
        lemma_node_path_lengths(project);
        assert forall|i: int| 0 <= i < ps.len() implies ps[i] != "docker/beat.sh"@ by {
            assert(ps[i].len() != 14);
        }
    }
}

/// The lengths of the paths of a Node.js project, none of which is that of `docker/beat.sh`.
proof fn lemma_node_path_lengths(project: Project)
    requires
        project.stack == Stack::Node,
    ensures
        file_paths(spec_project_files(project)).len() == 16,
        forall|i: int|
            0 <= i < 16 ==> #[trigger] file_paths(spec_project_files(project))[i].len() != 14,
{
    let ps = file_paths(spec_project_files(project));
    reveal_strlit(".dockerignore");
    reveal_strlit(".env");
    reveal_strlit(".env.example");
    reveal_strlit(".github/workflows/ci.yml");
    reveal_strlit(".gitignore");
    reveal_strlit("Makefile");
    reveal_strlit("README.md");
    reveal_strlit("app/package.json");
    reveal_strlit("app/src/index.js");
    reveal_strlit("app/src/queue.js");
    reveal_strlit("app/src/worker.js");
    reveal_strlit("compose.yaml");
    reveal_strlit("docker/Dockerfile");
    reveal_strlit("docker/start.sh");
    reveal_strlit("docker/worker.sh");
    reveal_strlit("nginx/default.conf");
    assert(ps[0] == "README.md"@ && ps[0].len() == 9);
    assert(ps[1] == ".env"@ && ps[1].len() == 4);
    assert(ps[2] == ".env.example"@ && ps[2].len() == 12);
    assert(ps[3] == ".gitignore"@ && ps[3].len() == 10);
    assert(ps[4] == ".dockerignore"@ && ps[4].len() == 13);
    assert(ps[5] == "Makefile"@ && ps[5].len() == 8);
    assert(ps[6] == "compose.yaml"@ && ps[6].len() == 12);
    assert(ps[7] == ".github/workflows/ci.yml"@ && ps[7].len() == 24);
    assert(ps[8] == "nginx/default.conf"@ && ps[8].len() == 18);
    assert(ps[9] == "docker/Dockerfile"@ && ps[9].len() == 17);
    assert(ps[10] == "docker/start.sh"@ && ps[10].len() == 15);
    assert(ps[11] == "docker/worker.sh"@ && ps[11].len() == 16);
    assert(ps[12] == "app/package.json"@ && ps[12].len() == 16);
    assert(ps[13] == "app/src/index.js"@ && ps[13].len() == 16);
    assert(ps[14] == "app/src/queue.js"@ && ps[14].len() == 16);
    assert(ps[15] == "app/src/worker.js"@ && ps[15].len() == 17);
    assert forall|i: int| 0 <= i < 16 implies #[trigger] ps[i].len() != 14 by {
        if i < 8 {
        } else {
        }
    }
}

/// The database name of a slug has no dash and is as long as the slug.
pub proof fn law_database_name_has_no_dash(slug: Seq<char>)
    ensures
        spec_database_name(slug).len() == slug.len(),
        forall|i: int| 0 <= i < slug.len() ==> #[trigger] spec_database_name(slug)[i] != '-',
{
}

/// Whether each file of a list is executable, in order.
pub open spec fn file_modes(files: Seq<(Seq<char>, Seq<char>, bool)>) -> Seq<bool> {
    files.map_values(|f: (Seq<char>, Seq<char>, bool)| f.2)
}

/// The files of a project, by stack: their paths in the order they are written,
/// and which of them are executable. Neither depends on the project's name,
/// slug or directory.
pub proof fn law_project_file_list(project: Project)
    ensures
        project.stack == Stack::Node ==> file_paths(spec_project_files(project)) == seq![
                "README.md"@,
                ".env"@,
                ".env.example"@,
                ".gitignore"@,
                ".dockerignore"@,
                "Makefile"@,
                "compose.yaml"@,
                ".github/workflows/ci.yml"@,
                "nginx/default.conf"@,
                "docker/Dockerfile"@,
                "docker/start.sh"@,
                "docker/worker.sh"@,
                "app/package.json"@,
                "app/src/index.js"@,
                "app/src/queue.js"@,
                "app/src/worker.js"@,
            ],
        project.stack == Stack::Node ==> file_modes(spec_project_files(project)) == seq![
                false, false, false, false, false, false, false, false, false, false, true, true, false, false, false, false,
            ],
        project.stack == Stack::Django ==> file_paths(spec_project_files(project)) == seq![
                "README.md"@,
                ".env"@,
                ".env.example"@,
                ".gitignore"@,
                ".dockerignore"@,
                "Makefile"@,
                "compose.yaml"@,
                ".github/workflows/ci.yml"@,
                "nginx/default.conf"@,
                "docker/Dockerfile"@,
                "docker/start.sh"@,
                "docker/worker.sh"@,
                "docker/beat.sh"@,
                "app/requirements.txt"@,
                "app/manage.py"@,
                "app/config/__init__.py"@,
                "app/config/settings.py"@,
                "app/config/urls.py"@,
                "app/config/wsgi.py"@,
                "app/config/asgi.py"@,
                "app/config/celery.py"@,
                "app/core/__init__.py"@,
                "app/core/apps.py"@,
                "app/core/urls.py"@,
                "app/core/views.py"@,
                "app/core/tasks.py"@,
            ],
        project.stack == Stack::Django ==> file_modes(spec_project_files(project)) == seq![
                false, false, false, false, false, false, false, false, false, false, true, true, true, false, true, false, false, false, false, false, false, false, false, false, false, false,
            ],
        project.stack == Stack::Flask ==> file_paths(spec_project_files(project)) == seq![
                "README.md"@,
                ".env"@,
                ".env.example"@,
                ".gitignore"@,
                ".dockerignore"@,
                "Makefile"@,
                "compose.yaml"@,
                ".github/workflows/ci.yml"@,
                "nginx/default.conf"@,
                "docker/Dockerfile"@,
                "docker/start.sh"@,
                "docker/worker.sh"@,
                "docker/beat.sh"@,
                "app/requirements.txt"@,
                "app/app/__init__.py"@,
                "app/app/config.py"@,
                "app/app/routes.py"@,
                "app/app/tasks.py"@,
                "app/app/celery_app.py"@,
                "app/app/wsgi.py"@,
            ],
        project.stack == Stack::Flask ==> file_modes(spec_project_files(project)) == seq![
                false, false, false, false, false, false, false, false, false, false, true, true, true, false, false, false, false, false, false, false,
            ],
        project.stack == Stack::Fastapi ==> file_paths(spec_project_files(project)) == seq![
                "README.md"@,
                ".env"@,
                ".env.example"@,
                ".gitignore"@,
                ".dockerignore"@,
                "Makefile"@,
                "compose.yaml"@,
                ".github/workflows/ci.yml"@,
                "nginx/default.conf"@,
                "docker/Dockerfile"@,
                "docker/start.sh"@,
                "docker/worker.sh"@,
                "docker/beat.sh"@,
                "app/requirements.txt"@,
                "app/app/config.py"@,
                "app/app/worker.py"@,
                "app/app/main.py"@,
            ],
        project.stack == Stack::Fastapi ==> file_modes(spec_project_files(project)) == seq![
                false, false, false, false, false, false, false, false, false, false, true, true, true, false, false, false, false,
            ],
{
    match project.stack {
        Stack::Node => {
            assert(file_paths(spec_project_files(project)) =~= seq![
                "README.md"@,
                ".env"@,
                ".env.example"@,
                ".gitignore"@,
                ".dockerignore"@,
                "Makefile"@,
                "compose.yaml"@,
                ".github/workflows/ci.yml"@,
                "nginx/default.conf"@,
                "docker/Dockerfile"@,
                "docker/start.sh"@,
                "docker/worker.sh"@,
                "app/package.json"@,
                "app/src/index.js"@,
                "app/src/queue.js"@,
                "app/src/worker.js"@,
            ]);
            assert(file_modes(spec_project_files(project)) =~= seq![false, false, false, false, false, false, false, false, false, false, true, true, false, false, false, false]);
        },
        Stack::Django => {
            assert(file_paths(spec_project_files(project)) =~= seq![
                "README.md"@,
                ".env"@,
                ".env.example"@,
                ".gitignore"@,
                ".dockerignore"@,
                "Makefile"@,
                "compose.yaml"@,
                ".github/workflows/ci.yml"@,
                "nginx/default.conf"@,
                "docker/Dockerfile"@,
                "docker/start.sh"@,
                "docker/worker.sh"@,
                "docker/beat.sh"@,
                "app/requirements.txt"@,
                "app/manage.py"@,
                "app/config/__init__.py"@,
                "app/config/settings.py"@,
                "app/config/urls.py"@,
                "app/config/wsgi.py"@,
                "app/config/asgi.py"@,
                "app/config/celery.py"@,
                "app/core/__init__.py"@,
                "app/core/apps.py"@,
                "app/core/urls.py"@,
                "app/core/views.py"@,
                "app/core/tasks.py"@,
            ]);
            assert(file_modes(spec_project_files(project)) =~= seq![false, false, false, false, false, false, false, false, false, false, true, true, true, false, true, false, false, false, false, false, false, false, false, false, false, false]);
        },
        Stack::Flask => {
            assert(file_paths(spec_project_files(project)) =~= seq![
                "README.md"@,
                ".env"@,
                ".env.example"@,
                ".gitignore"@,
                ".dockerignore"@,
                "Makefile"@,
                "compose.yaml"@,
                ".github/workflows/ci.yml"@,
                "nginx/default.conf"@,
                "docker/Dockerfile"@,
                "docker/start.sh"@,
                "docker/worker.sh"@,
                "docker/beat.sh"@,
                "app/requirements.txt"@,
                "app/app/__init__.py"@,
                "app/app/config.py"@,
                "app/app/routes.py"@,
                "app/app/tasks.py"@,
                "app/app/celery_app.py"@,
                "app/app/wsgi.py"@,
            ]);
            assert(file_modes(spec_project_files(project)) =~= seq![false, false, false, false, false, false, false, false, false, false, true, true, true, false, false, false, false, false, false, false]);
        },
        Stack::Fastapi => {
            assert(file_paths(spec_project_files(project)) =~= seq![
                "README.md"@,
                ".env"@,
                ".env.example"@,
                ".gitignore"@,
                ".dockerignore"@,
                "Makefile"@,
                "compose.yaml"@,
                ".github/workflows/ci.yml"@,
                "nginx/default.conf"@,
                "docker/Dockerfile"@,
                "docker/start.sh"@,
                "docker/worker.sh"@,
                "docker/beat.sh"@,
                "app/requirements.txt"@,
                "app/app/config.py"@,
                "app/app/worker.py"@,
                "app/app/main.py"@,
            ]);
            assert(file_modes(spec_project_files(project)) =~= seq![false, false, false, false, false, false, false, false, false, false, true, true, true, false, false, false, false]);
        },
    }
}

/// The characters of the words of a text of slug characters are slug characters.
proof fn lemma_slug_word_chars(s: Seq<char>, i: int, j: int)
    requires
        forall|k: int| 0 <= k < s.len() ==> is_slug_char(#[trigger] s[k]),
        0 <= i < slug_words(s).len(),
        0 <= j < slug_words(s)[i].len(),
    ensures
        is_slug_char(slug_words(s)[i][j]),
    decreases s.len(),
{
    let p = s.drop_last();
    let c = s.last();
    let ws = slug_words(p);
    assert forall|k: int| 0 <= k < p.len() implies is_slug_char(#[trigger] p[k]) by {
        assert(p[k] == s[k]);
    }
    assert(is_slug_char(s[s.len() - 1]));
    if slug_sep()(c) {
        lemma_slug_word_chars(p, i, j);
    } else if p.len() > 0 && !slug_sep()(p.last()) {
        let nw = ws.drop_last().push(ws.last().push(c));
        if i < ws.len() - 1 {
            assert(nw[i] == ws[i]);
            lemma_slug_word_chars(p, i, j);
        } else if j < ws.last().len() {
            assert(nw[i][j] == ws[ws.len() - 1][j]);
            lemma_slug_word_chars(p, ws.len() - 1, j);
        }
    } else {
        let nw = ws.push(seq![c]);
        if i < ws.len() {
            assert(nw[i] == ws[i]);
            lemma_slug_word_chars(p, i, j);
        }
    }
}

} // verus!
