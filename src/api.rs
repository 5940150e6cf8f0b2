use vstd::prelude::*;
use crate::naming::{base_name, persisted_name, update_name};
use crate::schema::{ColumnsView, TablesView};
use crate::text::{concat_all, contains, lemma_contains_middle, starts_with};

verus! {

/// The start of every route registration of a table: a decorator on its router.
pub open spec fn route_decorator(t: Seq<char>) -> Seq<char> {
    "\n\n@"@ + t + "."@
}

/// The `limit` parameter of the list operation: defaulting to 100, at most 100.
pub open spec fn limit_param() -> Seq<char> {
    "limit: Annotated[int, Query(le=100)] = 100"@
}

/// The guard of the update operation: 404 when no record has the key.
pub open spec fn update_not_found_guard() -> Seq<char> {
    "if not model_db:\n        raise HTTPException(status_code=404, detail='Not found')"@
}

/// The body of the update operation that copies into the stored record only
/// the fields that the payload sets.
pub open spec fn merge_present_fields() -> Seq<char> {
    "model_data = model.model_dump(exclude_unset=True)\n    model_db.sqlmodel_update(model_data)"@
}

/// The router of a table: its name as URL prefix and as tag.
pub open spec fn api_router(t: Seq<char>) -> Seq<char> {
    "\n\n"@
        + t
        + " = APIRouter(\n    prefix='/"@
        + t
        + "',\n    tags=['"@
        + t
        + "'],\n    responses={404: {'description': 'Not found'} },\n)\n"@
}

/// The list operation: paginated, with a bounded `limit`.
pub open spec fn op_list(t: Seq<char>, r: Seq<char>) -> Seq<char> {
    route_decorator(t)
        + "get('/')\nasync def view_all(\n    session: SessionDep,\n    offset: int = 0,\n    "@
        + limit_param()
        + "\n) -> List["@
        + r
        + "]:\n    models = session.exec(select("@
        + r
        + ").offset(offset).limit(limit)).all()\n    return models\n"@
}

/// The create operation: a base-shaped payload in, a persisted record out.
pub open spec fn op_create(t: Seq<char>, r: Seq<char>, b: Seq<char>) -> Seq<char> {
    route_decorator(t)
        + "post('/create', response_model="@
        + r
        + ")\nasync def create_one(model: "@
        + b
        + ", session: SessionDep) -> "@
        + r
        + ":\n    db_model = "@
        + r
        + ".model_validate(model)\n    session.add(db_model)\n    session.commit()\n    session.refresh(db_model)\n    return db_model\n"@
}

/// The get-by-key operation, answering 404 when the key is absent.
pub open spec fn op_get(t: Seq<char>, r: Seq<char>) -> Seq<char> {
    route_decorator(t)
        + "get('/{pk}')\nasync def view_one(pk: int, session: SessionDep) -> "@
        + r
        + ":\n    model = session.get("@
        + r
        + ", pk)\n    if not model:\n        raise HTTPException(status_code=404, detail='Not found')\n    return model\n"@
}

/// The delete-by-key operation, answering 404 when the key is absent.
pub open spec fn op_delete(t: Seq<char>, r: Seq<char>) -> Seq<char> {
    route_decorator(t)
        + "delete('/{pk}')\nasync def delete_one(pk: int, session: SessionDep) -> JSONResponse:\n    model = session.get("@
        + r
        + ", pk)\n    if not model:\n        raise HTTPException(status_code=404, detail='Not found')\n    session.delete(model)\n    session.commit()\n    return JSONResponse(content={'ok': True})\n"@
}

/// The partial-update operation, merging only the fields the payload sets.
pub open spec fn op_update(t: Seq<char>, r: Seq<char>, u: Seq<char>) -> Seq<char> {
    route_decorator(t)
        + "patch('/{pk}')\nasync def update_one(pk: int, model: "@
        + u
        + ", session: SessionDep) -> "@
        + r
        + ":\n    model_db = session.get("@
        + r
        + ", pk)\n    "@
        + update_not_found_guard()
        + "\n    "@
        + merge_present_fields()
        + "\n    session.add(model_db)\n    session.commit()\n    session.refresh(model_db)\n    return model_db\n"@
}

/// The registration of a table's router with the application.
pub open spec fn api_include(t: Seq<char>) -> Seq<char> {
    "\napp.include_router("@
        + t
        + ")\n"@
}

/// The five operations of a table, in the order in which they are registered.
pub open spec fn api_operations(t: Seq<char>) -> Seq<Seq<char>> {
    seq![
        op_list(t, persisted_name(t)),
        op_create(t, persisted_name(t), base_name(t)),
        op_get(t, persisted_name(t)),
        op_delete(t, persisted_name(t)),
        op_update(t, persisted_name(t), update_name(t)),
    ]
}

/// The route block of a table.
pub open spec fn api_block(t: Seq<char>) -> Seq<char> {
    api_router(t) + op_list(t, persisted_name(t)) + op_create(t, persisted_name(t), base_name(t))
        + op_get(t, persisted_name(t)) + op_delete(t, persisted_name(t)) + op_update(
        t,
        persisted_name(t),
        update_name(t),
    ) + api_include(t)
}

pub open spec fn api_blocks(ts: TablesView) -> Seq<Seq<char>> {
    ts.map_values(|e: (Seq<char>, ColumnsView)| api_block(e.0))
}

/// The fixed preamble of the route module: imports, the application, its
/// startup hook and a root route.
pub open spec fn api_preamble() -> Seq<char> {
    "\nfrom fastapi import FastAPI\nfrom db import create_db_and_tables\nfrom typing import Annotated, List\nfrom fastapi import APIRouter, HTTPException, Query\nfrom fastapi.responses import JSONResponse\nfrom sqlmodel import select\n\nfrom db import SessionDep\nfrom models import *\n\napp = FastAPI()\n\n@app.on_event('startup')\ndef on_startup():\n    create_db_and_tables()\n\n@app.get('/')\nasync def root():\n    return {'message': 'Hello World'}\n"@
}

/// The route module: the preamble, then one route block per table.
pub open spec fn api_text(ts: TablesView) -> Seq<char> {
    api_preamble() + concat_all(api_blocks(ts)) + "\n        "@
}

/// The session bootstrap module, the same for every configuration.
pub open spec fn database_text() -> Seq<char> {
    "\nfrom typing import Annotated\n\nfrom fastapi import Depends\nfrom sqlmodel import Session, SQLModel, create_engine\n\n#### Tables\nfrom models import *\n\n#### Configuration\nsqlite_file_name = 'database.db'\nsqlite_url = f'sqlite:///{sqlite_file_name}'\n\nconnect_args = {'check_same_thread': False}\nengine = create_engine(sqlite_url, connect_args=connect_args)\n\n\ndef create_db_and_tables():\n    SQLModel.metadata.create_all(engine)\n\n\ndef get_session():\n    with Session(engine) as session:\n        yield session\n\n\nSessionDep = Annotated[Session, Depends(get_session)]\n        "@
}

/// A table's route block is its router, exactly five operations and the
/// router's registration. Each operation is a route on the table's router;
/// the list operation takes a `limit` that defaults to 100 and is at most 100,
/// and the update operation answers 404 when the stored record is missing
/// and copies into it only the fields that the payload sets.
pub proof fn lemma_api_block_five_operations(t: Seq<char>)
    ensures
        api_operations(t).len() == 5,
        api_block(t) == api_router(t) + concat_all(api_operations(t)) + api_include(t),
        forall|i: int| 0 <= i < 5 ==> starts_with(#[trigger] api_operations(t)[i], route_decorator(t)),
        contains(api_operations(t)[0], limit_param()),
        contains(api_operations(t)[4], update_not_found_guard()),
        contains(api_operations(t)[4], merge_present_fields()),
{
    let ops = api_operations(t);
    reveal_with_fuel(concat_all, 6);
    assert(ops.drop_last().drop_last().drop_last().drop_last().drop_last() =~= Seq::<Seq<char>>::empty());
    assert(concat_all(ops) =~= ops[0] + ops[1] + ops[2] + ops[3] + ops[4]);
    let d = route_decorator(t);
    assert forall|i: int| 0 <= i < 5 implies starts_with(#[trigger] ops[i], d) by {
        assert(ops[i].subrange(0, d.len() as int) =~= d);
    }
    let r = persisted_name(t);
    lemma_contains_middle(
        d + "get('/')\nasync def view_all(\n    session: SessionDep,\n    offset: int = 0,\n    "@,
        limit_param(),
        "\n) -> List["@ + r + "]:\n    models = session.exec(select("@ + r
            + ").offset(offset).limit(limit)).all()\n    return models\n"@,
    );
    assert(ops[0] =~= (d + "get('/')\nasync def view_all(\n    session: SessionDep,\n    offset: int = 0,\n    "@)
        + limit_param() + ("\n) -> List["@ + r + "]:\n    models = session.exec(select("@ + r
            + ").offset(offset).limit(limit)).all()\n    return models\n"@));
    let u = update_name(t);
    let gpre = d + "patch('/{pk}')\nasync def update_one(pk: int, model: "@ + u + ", session: SessionDep) -> "@ + r
        + ":\n    model_db = session.get("@ + r + ", pk)\n    "@;
    let mpost = "\n    session.add(model_db)\n    session.commit()\n    session.refresh(model_db)\n    return model_db\n"@;
    let gpost = "\n    "@ + merge_present_fields() + mpost;
    lemma_contains_middle(gpre, update_not_found_guard(), gpost);
    assert(ops[4] =~= gpre + update_not_found_guard() + gpost);
    let mpre = gpre + update_not_found_guard() + "\n    "@;
    lemma_contains_middle(mpre, merge_present_fields(), mpost);
    assert(ops[4] =~= mpre + merge_present_fields() + mpost);
}

pub(crate) fn push_api_router(out: &mut String, t: &str)
    ensures
        final(out)@ == old(out)@ + api_router(t@),
{
    let ghost start = out@;
    out.append("\n\n");
    out.append(t);
    out.append(" = APIRouter(\n    prefix='/");
    out.append(t);
    out.append("',\n    tags=['");
    out.append(t);
    out.append("'],\n    responses={404: {'description': 'Not found'} },\n)\n");
    assert(out@ =~= start + api_router(t@));
}

pub(crate) fn push_op_list(out: &mut String, t: &str, r: &str)
    ensures
        final(out)@ == old(out)@ + op_list(t@, r@),
{
    let ghost start = out@;
    out.append("\n\n@");
    out.append(t);
    out.append(".");
    out.append("get('/')\nasync def view_all(\n    session: SessionDep,\n    offset: int = 0,\n    ");
    out.append("limit: Annotated[int, Query(le=100)] = 100");
    out.append("\n) -> List[");
    out.append(r);
    out.append("]:\n    models = session.exec(select(");
    out.append(r);
    out.append(").offset(offset).limit(limit)).all()\n    return models\n");
    assert(out@ =~= start + op_list(t@, r@));
}

pub(crate) fn push_op_create(out: &mut String, t: &str, r: &str, b: &str)
    ensures
        final(out)@ == old(out)@ + op_create(t@, r@, b@),
{
    let ghost start = out@;
    out.append("\n\n@");
    out.append(t);
    out.append(".");
    out.append("post('/create', response_model=");
    out.append(r);
    out.append(")\nasync def create_one(model: ");
    out.append(b);
    out.append(", session: SessionDep) -> ");
    out.append(r);
    out.append(":\n    db_model = ");
    out.append(r);
    out.append(".model_validate(model)\n    session.add(db_model)\n    session.commit()\n    session.refresh(db_model)\n    return db_model\n");
    assert(out@ =~= start + op_create(t@, r@, b@));
}

pub(crate) fn push_op_get(out: &mut String, t: &str, r: &str)
    ensures
        final(out)@ == old(out)@ + op_get(t@, r@),
{
    let ghost start = out@;
    out.append("\n\n@");
    out.append(t);
    out.append(".");
    out.append("get('/{pk}')\nasync def view_one(pk: int, session: SessionDep) -> ");
    out.append(r);
    out.append(":\n    model = session.get(");
    out.append(r);
    out.append(", pk)\n    if not model:\n        raise HTTPException(status_code=404, detail='Not found')\n    return model\n");
    assert(out@ =~= start + op_get(t@, r@));
}

pub(crate) fn push_op_delete(out: &mut String, t: &str, r: &str)
    ensures
        final(out)@ == old(out)@ + op_delete(t@, r@),
{
    let ghost start = out@;
    out.append("\n\n@");
    out.append(t);
    out.append(".");
    out.append("delete('/{pk}')\nasync def delete_one(pk: int, session: SessionDep) -> JSONResponse:\n    model = session.get(");
    out.append(r);
    out.append(", pk)\n    if not model:\n        raise HTTPException(status_code=404, detail='Not found')\n    session.delete(model)\n    session.commit()\n    return JSONResponse(content={'ok': True})\n");
    assert(out@ =~= start + op_delete(t@, r@));
}

pub(crate) fn push_op_update(out: &mut String, t: &str, r: &str, u: &str)
    ensures
        final(out)@ == old(out)@ + op_update(t@, r@, u@),
{
    let ghost start = out@;
    out.append("\n\n@");
    out.append(t);
    out.append(".");
    out.append("patch('/{pk}')\nasync def update_one(pk: int, model: ");
    out.append(u);
    out.append(", session: SessionDep) -> ");
    out.append(r);
    out.append(":\n    model_db = session.get(");
    out.append(r);
    out.append(", pk)\n    ");
    out.append("if not model_db:\n        raise HTTPException(status_code=404, detail='Not found')");
    out.append("\n    ");
    out.append("model_data = model.model_dump(exclude_unset=True)\n    model_db.sqlmodel_update(model_data)");
    out.append("\n    session.add(model_db)\n    session.commit()\n    session.refresh(model_db)\n    return model_db\n");
    assert(out@ =~= start + op_update(t@, r@, u@));
}

pub(crate) fn push_api_include(out: &mut String, t: &str)
    ensures
        final(out)@ == old(out)@ + api_include(t@),
{
    let ghost start = out@;
    out.append("\napp.include_router(");
    out.append(t);
    out.append(")\n");
    assert(out@ =~= start + api_include(t@));
}

} // verus!
