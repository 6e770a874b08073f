use vstd::prelude::*;
use crate::generator::spec_project_files;
use crate::generator::stacks::{django, fastapi, flask, node};
use crate::project::{spec_database_name, Project, Stack};
use crate::text::{has_infix, lemma_infix_middle};

verus! {

/// Where the project's names stand in the files of a Node.js project: each
/// line that names the project carries the slug, and each that names its
/// database carries the slug with underscores.
pub proof fn law_node_files_name_the_project(project: Project)
    requires
        project.stack == Stack::Node,
    ensures
        has_infix(spec_project_files(project)[12].1, "  \"name\": \""@ + project.slug@ + "\",\n"@),
        has_infix(spec_project_files(project)[13].1, "  res.json({ status: \"ok\", stack: \"node\", service: \""@ + project.slug@ + "\" });\n"@),
        has_infix(spec_project_files(project)[13].1, "  const job = await jobs.add(\"ping\", { service: \""@ + project.slug@ + "\", at: new Date().toISOString() });\n"@),
        has_infix(spec_project_files(project)[13].1, "  console.log(`"@ + project.slug@ + " listening on ${port}`);\n"@),
{
    reveal_strlit("  \"name\": \"");
    reveal_strlit("  console.log(`");
    reveal_strlit("  const job = await jobs.add(\"ping\", { service: \"");
    reveal_strlit("  res.json({ status: \"ok\", stack: \"node\", service: \"");
    reveal_strlit(" listening on ${port}`);\n");
    reveal_strlit("\" });\n");
    reveal_strlit("\",\n");
    reveal_strlit("\", at: new Date().toISOString() });\n");
    assert(spec_project_files(project)[12].1 =~= (node::PACKAGE_JSON_HEAD@) + ("  \"name\": \""@ + project.slug@ + "\",\n"@) + (node::PACKAGE_JSON_TAIL@));
    lemma_infix_middle(node::PACKAGE_JSON_HEAD@, "  \"name\": \""@ + project.slug@ + "\",\n"@, node::PACKAGE_JSON_TAIL@);
    assert(spec_project_files(project)[13].1 =~= (node::INDEX_JS_HEAD@) + ("  res.json({ status: \"ok\", stack: \"node\", service: \""@ + project.slug@ + "\" });\n"@) + (node::INDEX_JS_MID_A@ + node::INDEX_JS_LINE_B_START@ + project.slug@ + node::INDEX_JS_LINE_B_END@ + node::INDEX_JS_MID_B@ + node::INDEX_JS_LINE_C_START@ + project.slug@ + node::INDEX_JS_LINE_C_END@ + node::INDEX_JS_TAIL@));
    lemma_infix_middle(node::INDEX_JS_HEAD@, "  res.json({ status: \"ok\", stack: \"node\", service: \""@ + project.slug@ + "\" });\n"@, node::INDEX_JS_MID_A@ + node::INDEX_JS_LINE_B_START@ + project.slug@ + node::INDEX_JS_LINE_B_END@ + node::INDEX_JS_MID_B@ + node::INDEX_JS_LINE_C_START@ + project.slug@ + node::INDEX_JS_LINE_C_END@ + node::INDEX_JS_TAIL@);
    assert(spec_project_files(project)[13].1 =~= (node::INDEX_JS_HEAD@ + node::INDEX_JS_LINE_A_START@ + project.slug@ + node::INDEX_JS_LINE_A_END@ + node::INDEX_JS_MID_A@) + ("  const job = await jobs.add(\"ping\", { service: \""@ + project.slug@ + "\", at: new Date().toISOString() });\n"@) + (node::INDEX_JS_MID_B@ + node::INDEX_JS_LINE_C_START@ + project.slug@ + node::INDEX_JS_LINE_C_END@ + node::INDEX_JS_TAIL@));
    lemma_infix_middle(node::INDEX_JS_HEAD@ + node::INDEX_JS_LINE_A_START@ + project.slug@ + node::INDEX_JS_LINE_A_END@ + node::INDEX_JS_MID_A@, "  const job = await jobs.add(\"ping\", { service: \""@ + project.slug@ + "\", at: new Date().toISOString() });\n"@, node::INDEX_JS_MID_B@ + node::INDEX_JS_LINE_C_START@ + project.slug@ + node::INDEX_JS_LINE_C_END@ + node::INDEX_JS_TAIL@);
    assert(spec_project_files(project)[13].1 =~= (node::INDEX_JS_HEAD@ + node::INDEX_JS_LINE_A_START@ + project.slug@ + node::INDEX_JS_LINE_A_END@ + node::INDEX_JS_MID_A@ + node::INDEX_JS_LINE_B_START@ + project.slug@ + node::INDEX_JS_LINE_B_END@ + node::INDEX_JS_MID_B@) + ("  console.log(`"@ + project.slug@ + " listening on ${port}`);\n"@) + (node::INDEX_JS_TAIL@));
    lemma_infix_middle(node::INDEX_JS_HEAD@ + node::INDEX_JS_LINE_A_START@ + project.slug@ + node::INDEX_JS_LINE_A_END@ + node::INDEX_JS_MID_A@ + node::INDEX_JS_LINE_B_START@ + project.slug@ + node::INDEX_JS_LINE_B_END@ + node::INDEX_JS_MID_B@, "  console.log(`"@ + project.slug@ + " listening on ${port}`);\n"@, node::INDEX_JS_TAIL@);
}

/// Where the project's names stand in the files of a Django project: each
/// line that names the project carries the slug, and each that names its
/// database carries the slug with underscores.
pub proof fn law_django_files_name_the_project(project: Project)
    requires
        project.stack == Stack::Django,
    ensures
        has_infix(spec_project_files(project)[16].1, "APP_NAME = \""@ + spec_database_name(project.slug@) + "\"\n"@),
        has_infix(spec_project_files(project)[24].1, "    return HttpResponse(\"DevStack "@ + project.slug@ + " is live\")\n"@),
        has_infix(spec_project_files(project)[24].1, "    task = ping.delay(payload or {\"service\": \""@ + project.slug@ + "\"})\n"@),
{
    reveal_strlit("    return HttpResponse(\"DevStack ");
    reveal_strlit("    task = ping.delay(payload or {\"service\": \"");
    reveal_strlit(" is live\")\n");
    reveal_strlit("\"\n");
    reveal_strlit("\"})\n");
    reveal_strlit("APP_NAME = \"");
    assert(spec_project_files(project)[16].1 =~= (django::SETTINGS_PY_HEAD@) + ("APP_NAME = \""@ + spec_database_name(project.slug@) + "\"\n"@) + (Seq::<char>::empty()));
    lemma_infix_middle(django::SETTINGS_PY_HEAD@, "APP_NAME = \""@ + spec_database_name(project.slug@) + "\"\n"@, Seq::<char>::empty());
    assert(spec_project_files(project)[24].1 =~= (django::VIEWS_PY_HEAD@) + ("    return HttpResponse(\"DevStack "@ + project.slug@ + " is live\")\n"@) + (django::VIEWS_PY_MID@ + django::VIEWS_PY_LINE_B_START@ + project.slug@ + django::VIEWS_PY_LINE_B_END@ + django::VIEWS_PY_TAIL@));
    lemma_infix_middle(django::VIEWS_PY_HEAD@, "    return HttpResponse(\"DevStack "@ + project.slug@ + " is live\")\n"@, django::VIEWS_PY_MID@ + django::VIEWS_PY_LINE_B_START@ + project.slug@ + django::VIEWS_PY_LINE_B_END@ + django::VIEWS_PY_TAIL@);
    assert(spec_project_files(project)[24].1 =~= (django::VIEWS_PY_HEAD@ + django::VIEWS_PY_LINE_A_START@ + project.slug@ + django::VIEWS_PY_LINE_A_END@ + django::VIEWS_PY_MID@) + ("    task = ping.delay(payload or {\"service\": \""@ + project.slug@ + "\"})\n"@) + (django::VIEWS_PY_TAIL@));
    lemma_infix_middle(django::VIEWS_PY_HEAD@ + django::VIEWS_PY_LINE_A_START@ + project.slug@ + django::VIEWS_PY_LINE_A_END@ + django::VIEWS_PY_MID@, "    task = ping.delay(payload or {\"service\": \""@ + project.slug@ + "\"})\n"@, django::VIEWS_PY_TAIL@);
}

/// Where the project's names stand in the files of a Flask project: each
/// line that names the project carries the slug, and each that names its
/// database carries the slug with underscores.
pub proof fn law_flask_files_name_the_project(project: Project)
    requires
        project.stack == Stack::Flask,
    ensures
        has_infix(spec_project_files(project)[14].1, "    app = Flask(\""@ + project.slug@ + "\")\n"@),
        has_infix(spec_project_files(project)[15].1, "    APP_NAME = os.getenv(\"APP_NAME\", \""@ + project.slug@ + "\")\n"@),
        has_infix(spec_project_files(project)[15].1, "    POSTGRES_DB = os.getenv(\"POSTGRES_DB\", \""@ + spec_database_name(project.slug@) + "\")\n"@),
        has_infix(spec_project_files(project)[16].1, "        return \""@ + project.slug@ + " is live\"\n"@),
        has_infix(spec_project_files(project)[16].1, "        task = ping.delay(request.get_json(silent=True) or {\"service\": \""@ + project.slug@ + "\"})\n"@),
{
    reveal_strlit("        return \"");
    reveal_strlit("        task = ping.delay(request.get_json(silent=True) or {\"service\": \"");
    reveal_strlit("    APP_NAME = os.getenv(\"APP_NAME\", \"");
    reveal_strlit("    POSTGRES_DB = os.getenv(\"POSTGRES_DB\", \"");
    reveal_strlit("    app = Flask(\"");
    reveal_strlit(" is live\"\n");
    reveal_strlit("\")\n");
    reveal_strlit("\"})\n");
    assert(spec_project_files(project)[14].1 =~= (flask::APP_INIT_HEAD@) + ("    app = Flask(\""@ + project.slug@ + "\")\n"@) + (flask::APP_INIT_TAIL@));
    lemma_infix_middle(flask::APP_INIT_HEAD@, "    app = Flask(\""@ + project.slug@ + "\")\n"@, flask::APP_INIT_TAIL@);
    assert(spec_project_files(project)[15].1 =~= (flask::CONFIG_PY_HEAD@) + ("    APP_NAME = os.getenv(\"APP_NAME\", \""@ + project.slug@ + "\")\n"@) + (flask::CONFIG_PY_MID@ + flask::CONFIG_PY_LINE_B_START@ + spec_database_name(project.slug@) + flask::CONFIG_PY_LINE_B_END@ + flask::CONFIG_PY_TAIL@));
    lemma_infix_middle(flask::CONFIG_PY_HEAD@, "    APP_NAME = os.getenv(\"APP_NAME\", \""@ + project.slug@ + "\")\n"@, flask::CONFIG_PY_MID@ + flask::CONFIG_PY_LINE_B_START@ + spec_database_name(project.slug@) + flask::CONFIG_PY_LINE_B_END@ + flask::CONFIG_PY_TAIL@);
    assert(spec_project_files(project)[15].1 =~= (flask::CONFIG_PY_HEAD@ + flask::CONFIG_PY_LINE_A_START@ + project.slug@ + flask::CONFIG_PY_LINE_A_END@ + flask::CONFIG_PY_MID@) + ("    POSTGRES_DB = os.getenv(\"POSTGRES_DB\", \""@ + spec_database_name(project.slug@) + "\")\n"@) + (flask::CONFIG_PY_TAIL@));
    lemma_infix_middle(flask::CONFIG_PY_HEAD@ + flask::CONFIG_PY_LINE_A_START@ + project.slug@ + flask::CONFIG_PY_LINE_A_END@ + flask::CONFIG_PY_MID@, "    POSTGRES_DB = os.getenv(\"POSTGRES_DB\", \""@ + spec_database_name(project.slug@) + "\")\n"@, flask::CONFIG_PY_TAIL@);
    assert(spec_project_files(project)[16].1 =~= (flask::ROUTES_PY_HEAD@) + ("        return \""@ + project.slug@ + " is live\"\n"@) + (flask::ROUTES_PY_MID@ + flask::ROUTES_PY_LINE_B_START@ + project.slug@ + flask::ROUTES_PY_LINE_B_END@ + flask::ROUTES_PY_TAIL@));
    lemma_infix_middle(flask::ROUTES_PY_HEAD@, "        return \""@ + project.slug@ + " is live\"\n"@, flask::ROUTES_PY_MID@ + flask::ROUTES_PY_LINE_B_START@ + project.slug@ + flask::ROUTES_PY_LINE_B_END@ + flask::ROUTES_PY_TAIL@);
    assert(spec_project_files(project)[16].1 =~= (flask::ROUTES_PY_HEAD@ + flask::ROUTES_PY_LINE_A_START@ + project.slug@ + flask::ROUTES_PY_LINE_A_END@ + flask::ROUTES_PY_MID@) + ("        task = ping.delay(request.get_json(silent=True) or {\"service\": \""@ + project.slug@ + "\"})\n"@) + (flask::ROUTES_PY_TAIL@));
    lemma_infix_middle(flask::ROUTES_PY_HEAD@ + flask::ROUTES_PY_LINE_A_START@ + project.slug@ + flask::ROUTES_PY_LINE_A_END@ + flask::ROUTES_PY_MID@, "        task = ping.delay(request.get_json(silent=True) or {\"service\": \""@ + project.slug@ + "\"})\n"@, flask::ROUTES_PY_TAIL@);
}

/// Where the project's names stand in the files of a FastAPI project: each
/// line that names the project carries the slug, and each that names its
/// database carries the slug with underscores.
pub proof fn law_fastapi_files_name_the_project(project: Project)
    requires
        project.stack == Stack::Fastapi,
    ensures
        has_infix(spec_project_files(project)[14].1, "APP_NAME = os.getenv(\"APP_NAME\", \""@ + project.slug@ + "\")\n"@),
        has_infix(spec_project_files(project)[14].1, "POSTGRES_DB = os.getenv(\"POSTGRES_DB\", \""@ + spec_database_name(project.slug@) + "\")\n"@),
        has_infix(spec_project_files(project)[16].1, "    return {\"message\": \""@ + project.slug@ + " is live\"}\n"@),
        has_infix(spec_project_files(project)[16].1, "    task = ping.delay(payload or {\"service\": \""@ + project.slug@ + "\"})\n"@),
{
    reveal_strlit("    return {\"message\": \"");
    reveal_strlit("    task = ping.delay(payload or {\"service\": \"");
    reveal_strlit(" is live\"}\n");
    reveal_strlit("\")\n");
    reveal_strlit("\"})\n");
    reveal_strlit("APP_NAME = os.getenv(\"APP_NAME\", \"");
    reveal_strlit("POSTGRES_DB = os.getenv(\"POSTGRES_DB\", \"");
    assert(spec_project_files(project)[14].1 =~= (fastapi::CONFIG_PY_HEAD@) + ("APP_NAME = os.getenv(\"APP_NAME\", \""@ + project.slug@ + "\")\n"@) + (fastapi::CONFIG_PY_MID@ + fastapi::CONFIG_PY_LINE_B_START@ + spec_database_name(project.slug@) + fastapi::CONFIG_PY_LINE_B_END@ + fastapi::CONFIG_PY_TAIL@));
    lemma_infix_middle(fastapi::CONFIG_PY_HEAD@, "APP_NAME = os.getenv(\"APP_NAME\", \""@ + project.slug@ + "\")\n"@, fastapi::CONFIG_PY_MID@ + fastapi::CONFIG_PY_LINE_B_START@ + spec_database_name(project.slug@) + fastapi::CONFIG_PY_LINE_B_END@ + fastapi::CONFIG_PY_TAIL@);
    assert(spec_project_files(project)[14].1 =~= (fastapi::CONFIG_PY_HEAD@ + fastapi::CONFIG_PY_LINE_A_START@ + project.slug@ + fastapi::CONFIG_PY_LINE_A_END@ + fastapi::CONFIG_PY_MID@) + ("POSTGRES_DB = os.getenv(\"POSTGRES_DB\", \""@ + spec_database_name(project.slug@) + "\")\n"@) + (fastapi::CONFIG_PY_TAIL@));
    lemma_infix_middle(fastapi::CONFIG_PY_HEAD@ + fastapi::CONFIG_PY_LINE_A_START@ + project.slug@ + fastapi::CONFIG_PY_LINE_A_END@ + fastapi::CONFIG_PY_MID@, "POSTGRES_DB = os.getenv(\"POSTGRES_DB\", \""@ + spec_database_name(project.slug@) + "\")\n"@, fastapi::CONFIG_PY_TAIL@);
    assert(spec_project_files(project)[16].1 =~= (fastapi::MAIN_PY_HEAD@) + ("    return {\"message\": \""@ + project.slug@ + " is live\"}\n"@) + (fastapi::MAIN_PY_MID@ + fastapi::MAIN_PY_LINE_B_START@ + project.slug@ + fastapi::MAIN_PY_LINE_B_END@ + fastapi::MAIN_PY_TAIL@));
    lemma_infix_middle(fastapi::MAIN_PY_HEAD@, "    return {\"message\": \""@ + project.slug@ + " is live\"}\n"@, fastapi::MAIN_PY_MID@ + fastapi::MAIN_PY_LINE_B_START@ + project.slug@ + fastapi::MAIN_PY_LINE_B_END@ + fastapi::MAIN_PY_TAIL@);
    assert(spec_project_files(project)[16].1 =~= (fastapi::MAIN_PY_HEAD@ + fastapi::MAIN_PY_LINE_A_START@ + project.slug@ + fastapi::MAIN_PY_LINE_A_END@ + fastapi::MAIN_PY_MID@) + ("    task = ping.delay(payload or {\"service\": \""@ + project.slug@ + "\"})\n"@) + (fastapi::MAIN_PY_TAIL@));
    lemma_infix_middle(fastapi::MAIN_PY_HEAD@ + fastapi::MAIN_PY_LINE_A_START@ + project.slug@ + fastapi::MAIN_PY_LINE_A_END@ + fastapi::MAIN_PY_MID@, "    task = ping.delay(payload or {\"service\": \""@ + project.slug@ + "\"})\n"@, fastapi::MAIN_PY_TAIL@);
}

} // verus!
