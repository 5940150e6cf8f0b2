use vstd::prelude::*;
use crate::fields::{create_fragment, create_line, update_fragment, update_line};
use crate::models::{
    base_block, base_blocks, model_imports_text, models_text, regular_block, regular_blocks,
    update_block, update_blocks,
};
use crate::api::{
    api_block, api_blocks, api_text, database_text, push_api_include, push_api_router, push_op_create,
    push_op_delete, push_op_get, push_op_list, push_op_update,
};
use crate::naming::{base_name, persisted_name, to_upper, update_name};
use crate::schema::{Column, ColumnDataType, Conf, Table};
use crate::schema::{column_names, table_names, ColumnsView, TablesView};
use crate::text::{
    concat_all, lemma_concat_all_take_push, lemma_name_lt_transitive, name_lt, strictly_ascending,
};

verus! {

/// Drives generation over one configuration.
pub struct ConfigParser {
    config: Conf,
}

impl ConfigParser {
    pub fn new(conf: Conf) -> (r: ConfigParser)
        requires
            conf.wf(),
        ensures
            r.conf() == conf,
    {
        ConfigParser { config: conf }
    }

    /// The configuration that generation runs over.
    pub closed spec fn conf(&self) -> Conf {
        self.config
    }

    /// The configuration's version tag.
    pub fn version(&self) -> (r: &String)
        ensures
            r@ == self.conf().version@,
    {
        &self.config.version
    }

    // Base and persisted field declarations.
    pub fn match_to_sql_type(&self, d: &ColumnDataType) -> (r: &'static str)
        ensures
            r@ == create_fragment(*d),
    {
        match d {
            ColumnDataType::String => ": Union[str, None] = Field(default=None, nullable=True)",
            ColumnDataType::Integer => ": Union[int, None] = Field(default=None, nullable=True)",
            ColumnDataType::Float => ": Union[float, None] = Field(default=None, nullable=True)",
            ColumnDataType::DateTime =>
                ": Union[datetime.datetime, None] = Field(default_factory=datetime.datetime.now, nullable=True)",
        }
    }

    pub fn generate_column(&self, name: &str, col: &Column) -> (r: String)
        ensures
            r@ == create_line(name@, col.datatype),
    {
        let mut r = "\n\t".to_owned();
        r.append(name);
        r.append(self.match_to_sql_type(&col.datatype));
        r
    }

    pub fn generate_base_class_name(&self, name: &str) -> (r: String)
        ensures
            r@ == base_name(name@),
    {
        let mut r = to_upper(name);
        r.append("_Base");
        r
    }

    pub fn generate_base_class_object(&self, table_name: &str, table: &Table) -> (r: String)
        ensures
            r@ == base_block(table_name@, table@),
    {
        let ghost lines = table@.map_values(
            |c: (Seq<char>, ColumnDataType)| create_line(c.0, c.1),
        );
        let mut columns = String::new();
        let mut i: usize = 0;
        while i < table.columns.len()
            invariant
                i <= table.columns.len(),
                lines == table@.map_values(|c: (Seq<char>, ColumnDataType)| create_line(c.0, c.1)),
                columns@ == concat_all(lines.take(i as int)),
            decreases table.columns.len() - i,
        {
            let line = self.generate_column(table.columns[i].0.as_str(), &table.columns[i].1);
            columns.append(line.as_str());
            proof {
                assert(lines[i as int] == line@);
                lemma_concat_all_take_push(lines, i as int);
            }
            i += 1;
        }
        assert(lines.take(i as int) =~= lines);
        let mut r = "class ".to_owned();
        r.append(self.generate_base_class_name(table_name).as_str());
        r.append("(SQLModel):");
        r.append(columns.as_str());
        r
    }

    pub fn create_base_model(&self) -> (r: String)
        ensures
            r@ == concat_all(base_blocks(self.conf().tables_view())),
    {
        let tables = &self.config.tables;
        let ghost blocks = base_blocks(self.conf().tables_view());
        let mut out = String::new();
        let mut i: usize = 0;
        while i < tables.len()
            invariant
                tables == &self.config.tables,
                i <= tables.len(),
                blocks.len() == tables@.len(),
                blocks == base_blocks(self.conf().tables_view()),
                out@ == concat_all(blocks.take(i as int)),
            decreases tables.len() - i,
        {
            let b = self.generate_base_class_object(tables[i].0.as_str(), &tables[i].1);
            out.append(b.as_str());
            proof {
                lemma_concat_all_take_push(blocks, i as int);
            }
            i += 1;
        }
        assert(blocks.take(i as int) =~= blocks);
        out
    }

    pub fn generate_regular_class_name(&self, name: &str) -> (r: String)
        ensures
            r@ == persisted_name(name@),
    {
        to_upper(name)
    }

    pub fn generate_regular_class_object(&self, table_name: &str) -> (r: String)
        ensures
            r@ == regular_block(table_name@),
    {
        let mut r = "class ".to_owned();
        r.append(self.generate_regular_class_name(table_name).as_str());
        r.append("(");
        r.append(self.generate_base_class_name(table_name).as_str());
        r.append(", table=True):\n\tid: int | None = Field(default=None, primary_key=True)");
        r
    }

    pub fn create_regular_model(&self) -> (r: String)
        ensures
            r@ == concat_all(regular_blocks(self.conf().tables_view())),
    {
        let tables = &self.config.tables;
        let ghost blocks = regular_blocks(self.conf().tables_view());
        let mut out = String::new();
        let mut i: usize = 0;
        while i < tables.len()
            invariant
                tables == &self.config.tables,
                i <= tables.len(),
                blocks.len() == tables@.len(),
                blocks == regular_blocks(self.conf().tables_view()),
                out@ == concat_all(blocks.take(i as int)),
            decreases tables.len() - i,
        {
            let b = self.generate_regular_class_object(tables[i].0.as_str());
            out.append(b.as_str());
            proof {
                lemma_concat_all_take_push(blocks, i as int);
            }
            i += 1;
        }
        assert(blocks.take(i as int) =~= blocks);
        out
    }

    // Update field declarations.
    pub fn match_to_sql_type_update(&self, d: &ColumnDataType) -> (r: &'static str)
        ensures
            r@ == update_fragment(*d),
    {
        match d {
            ColumnDataType::String => ": Union[str, None] = None",
            ColumnDataType::Integer => ": Union[int, None] = None",
            ColumnDataType::Float => ": Union[float, None] = None",
            ColumnDataType::DateTime => ": Union[datetime.datetime, None] = None",
        }
    }

    pub fn generate_column_update(&self, name: &str, col: &Column) -> (r: String)
        ensures
            r@ == update_line(name@, col.datatype),
    {
        let mut r = "\n\t".to_owned();
        r.append(name);
        r.append(self.match_to_sql_type_update(&col.datatype));
        r
    }

    pub fn generate_update_class_name(&self, name: &str) -> (r: String)
        ensures
            r@ == update_name(name@),
    {
        let mut r = to_upper(name);
        r.append("_Update");
        r
    }

    pub fn generate_update_class_object(&self, table_name: &str, table: &Table) -> (r: String)
        ensures
            r@ == update_block(table_name@, table@),
    {
        let ghost lines = table@.map_values(
            |c: (Seq<char>, ColumnDataType)| update_line(c.0, c.1),
        );
        let mut columns = String::new();
        let mut i: usize = 0;
        while i < table.columns.len()
            invariant
                i <= table.columns.len(),
                lines == table@.map_values(|c: (Seq<char>, ColumnDataType)| update_line(c.0, c.1)),
                columns@ == concat_all(lines.take(i as int)),
            decreases table.columns.len() - i,
        {
            let line = self.generate_column_update(table.columns[i].0.as_str(), &table.columns[i].1);
            columns.append(line.as_str());
            proof {
                assert(lines[i as int] == line@);
                lemma_concat_all_take_push(lines, i as int);
            }
            i += 1;
        }
        assert(lines.take(i as int) =~= lines);
        let mut r = "class ".to_owned();
        r.append(self.generate_update_class_name(table_name).as_str());
        r.append("(");
        r.append(self.generate_base_class_name(table_name).as_str());
        r.append("):");
        r.append(columns.as_str());
        r
    }

    pub fn create_update_model(&self) -> (r: String)
        ensures
            r@ == concat_all(update_blocks(self.conf().tables_view())),
    {
        let tables = &self.config.tables;
        let ghost blocks = update_blocks(self.conf().tables_view());
        let mut out = String::new();
        let mut i: usize = 0;
        while i < tables.len()
            invariant
                tables == &self.config.tables,
                i <= tables.len(),
                blocks.len() == tables@.len(),
                blocks == update_blocks(self.conf().tables_view()),
                out@ == concat_all(blocks.take(i as int)),
            decreases tables.len() - i,
        {
            let b = self.generate_update_class_object(tables[i].0.as_str(), &tables[i].1);
            out.append(b.as_str());
            proof {
                lemma_concat_all_take_push(blocks, i as int);
            }
            i += 1;
        }
        assert(blocks.take(i as int) =~= blocks);
        out
    }

    pub fn model_imports(&self) -> (r: String)
        ensures
            r@ == model_imports_text(),
    {
        "import datetime\nfrom typing import Union\nfrom sqlmodel import Field, SQLModel".to_owned()
    }

    /// The whole model module.
    pub fn create_models(&self) -> (r: String)
        ensures
            r@ == models_text(self.conf().tables_view()),
    {
        let mut r = self.model_imports();
        r.append("\n");
        r.append(self.create_base_model().as_str());
        r.append("\n");
        r.append(self.create_regular_model().as_str());
        r.append("\n");
        r.append(self.create_update_model().as_str());
        r
    }

    /// The route block of one table.
    pub fn generate_api(&self, table_name: &str) -> (r: String)
        ensures
            r@ == api_block(table_name@),
    {
        let update_object_name = self.generate_update_class_name(table_name);
        let base_object_name = self.generate_base_class_name(table_name);
        let regular_object_name = self.generate_regular_class_name(table_name);
        let regular = regular_object_name.as_str();
        let mut r = String::new();
        push_api_router(&mut r, table_name);
        push_op_list(&mut r, table_name, regular);
        push_op_create(&mut r, table_name, regular, base_object_name.as_str());
        push_op_get(&mut r, table_name, regular);
        push_op_delete(&mut r, table_name, regular);
        push_op_update(&mut r, table_name, regular, update_object_name.as_str());
        push_api_include(&mut r, table_name);
        assert(r@ =~= api_block(table_name@));
        r
    }

    /// The whole route module.
    pub fn create_api(&self) -> (r: String)
        ensures
            r@ == api_text(self.conf().tables_view()),
    {
        let tables = &self.config.tables;
        let ghost blocks = api_blocks(self.conf().tables_view());
        let mut out = String::new();
        let mut i: usize = 0;
        while i < tables.len()
            invariant
                tables == &self.config.tables,
                i <= tables.len(),
                blocks.len() == tables@.len(),
                blocks == api_blocks(self.conf().tables_view()),
                out@ == concat_all(blocks.take(i as int)),
            decreases tables.len() - i,
        {
            let b = self.generate_api(tables[i].0.as_str());
            out.append(b.as_str());
            proof {
                lemma_concat_all_take_push(blocks, i as int);
            }
            i += 1;
        }
        assert(blocks.take(i as int) =~= blocks);
        let mut r = "\nfrom fastapi import FastAPI\nfrom db import create_db_and_tables\nfrom typing import Annotated, List\nfrom fastapi import APIRouter, HTTPException, Query\nfrom fastapi.responses import JSONResponse\nfrom sqlmodel import select\n\nfrom db import SessionDep\nfrom models import *\n\napp = FastAPI()\n\n@app.on_event('startup')\ndef on_startup():\n    create_db_and_tables()\n\n@app.get('/')\nasync def root():\n    return {'message': 'Hello World'}\n".to_owned();
        r.append(out.as_str());
        r.append("\n        ");
        r
    }

    /// The session bootstrap module.
    pub fn create_database(&self) -> (r: String)
        ensures
            r@ == database_text(),
    {
        "\nfrom typing import Annotated\n\nfrom fastapi import Depends\nfrom sqlmodel import Session, SQLModel, create_engine\n\n#### Tables\nfrom models import *\n\n#### Configuration\nsqlite_file_name = 'database.db'\nsqlite_url = f'sqlite:///{sqlite_file_name}'\n\nconnect_args = {'check_same_thread': False}\nengine = create_engine(sqlite_url, connect_args=connect_args)\n\n\ndef create_db_and_tables():\n    SQLModel.metadata.create_all(engine)\n\n\ndef get_session():\n    with Session(engine) as session:\n        yield session\n\n\nSessionDep = Annotated[Session, Depends(get_session)]\n        ".to_owned()
    }

    /// The three modules of one run: models, routes and session bootstrap.
    pub fn generate(&self) -> (r: (String, String, String))
        ensures
            r.0@ == models_text(self.conf().tables_view()),
            r.1@ == api_text(self.conf().tables_view()),
            r.2@ == database_text(),
    {
        (self.create_models(), self.create_api(), self.create_database())
    }
}

/// What a table list holds, whatever its order: each table's name with the
/// set of its columns.
pub open spec fn tables_content(ts: TablesView) -> Set<(Seq<char>, Set<(Seq<char>, ColumnDataType)>)> {
    ts.map_values(|e: (Seq<char>, ColumnsView)| (e.0, e.1.to_set())).to_set()
}

/// Two lists with strictly ascending names and the same entries are equal.
proof fn lemma_ascending_determined<V>(s: Seq<(Seq<char>, V)>, t: Seq<(Seq<char>, V)>)
    requires
        strictly_ascending(s.map_values(|e: (Seq<char>, V)| e.0)),
        strictly_ascending(t.map_values(|e: (Seq<char>, V)| e.0)),
        s.to_set() == t.to_set(),
    ensures
        s == t,
    decreases s.len(),
{
    let sn = s.map_values(|e: (Seq<char>, V)| e.0);
    let tn = t.map_values(|e: (Seq<char>, V)| e.0);
    if s.len() == 0 {
        if t.len() > 0 {
            assert(t.to_set().contains(t[0]));
        }
        assert(s =~= t);
    } else {
        assert(s.to_set().contains(s[0]));
        assert(t.contains(s[0]));
        let j = choose|j: int| 0 <= j < t.len() && t[j] == s[0];
        assert(t.to_set().contains(t[0]));
        assert(s.contains(t[0]));
        let i = choose|i: int| 0 <= i < s.len() && s[i] == t[0];
        if j > 0 {
            assert(name_lt(tn[0], tn[j]));
            if i > 0 {
                assert(name_lt(sn[0], sn[i]));
                lemma_name_lt_transitive(s[0].0, t[0].0, s[0].0);
            }
        }
        assert(s[0] == t[0]);
        let s1 = s.drop_first();
        let t1 = t.drop_first();
        assert forall|x: (Seq<char>, V)| s1.to_set().contains(x) implies t1.to_set().contains(x) by {
            assert(s1.contains(x));
            let k = choose|k: int| 0 <= k < s1.len() && s1[k] == x;
            assert(name_lt(sn[0], sn[k + 1]));
            assert(t.to_set().contains(x)) by {
                assert(s.to_set().contains(x)) by {
                    assert(s[k + 1] == x);
                }
            }
            assert(t.contains(x));
            let m = choose|m: int| 0 <= m < t.len() && t[m] == x;
            assert(m != 0);
            assert(t1[m - 1] == x);
        }
        assert forall|x: (Seq<char>, V)| t1.to_set().contains(x) implies s1.to_set().contains(x) by {
            assert(t1.contains(x));
            let k = choose|k: int| 0 <= k < t1.len() && t1[k] == x;
            assert(name_lt(tn[0], tn[k + 1]));
            assert(s.to_set().contains(x)) by {
                assert(t.to_set().contains(x)) by {
                    assert(t[k + 1] == x);
                }
            }
            assert(s.contains(x));
            let m = choose|m: int| 0 <= m < s.len() && s[m] == x;
            assert(m != 0);
            assert(s1[m - 1] == x);
        }
        assert(s1.to_set() =~= t1.to_set());
        assert(s1.map_values(|e: (Seq<char>, V)| e.0) =~= sn.drop_first());
        assert(t1.map_values(|e: (Seq<char>, V)| e.0) =~= tn.drop_first());
        lemma_ascending_determined(s1, t1);
        assert(s.len() == t.len());
        assert forall|k: int| 0 <= k < s.len() implies s[k] == t[k] by {
            if k > 0 {
                assert(s[k] == s1[k - 1]);
                assert(t[k] == t1[k - 1]);
            }
        }
        assert(s =~= t);
    }
}

/// Generation depends on what the configuration holds, not on the order in
/// which it was given: two well-formed configurations with the same tables,
/// each with the same set of columns, give the same model and route modules.
pub proof fn lemma_same_tables_same_text(a: Conf, b: Conf)
    requires
        a.wf(),
        b.wf(),
        tables_content(a.tables_view()) == tables_content(b.tables_view()),
    ensures
        a.tables_view() == b.tables_view(),
        models_text(a.tables_view()) == models_text(b.tables_view()),
        api_text(a.tables_view()) == api_text(b.tables_view()),
{
    let ta = a.tables_view();
    let tb = b.tables_view();
    let sa = ta.map_values(|e: (Seq<char>, ColumnsView)| (e.0, e.1.to_set()));
    let sb = tb.map_values(|e: (Seq<char>, ColumnsView)| (e.0, e.1.to_set()));
    assert(sa.map_values(|e: (Seq<char>, Set<(Seq<char>, ColumnDataType)>)| e.0) =~= table_names(ta));
    assert(sb.map_values(|e: (Seq<char>, Set<(Seq<char>, ColumnDataType)>)| e.0) =~= table_names(tb));
    lemma_ascending_determined(sa, sb);
    assert(ta.len() == sa.len());
    assert forall|i: int| 0 <= i < ta.len() implies ta[i] == tb[i] by {
        assert(sa[i] == sb[i]);
        assert(strictly_ascending(column_names(ta[i].1)));
        assert(strictly_ascending(column_names(tb[i].1)));
        assert(ta[i].1.map_values(|e: (Seq<char>, ColumnDataType)| e.0) =~= column_names(ta[i].1));
        assert(tb[i].1.map_values(|e: (Seq<char>, ColumnDataType)| e.0) =~= column_names(tb[i].1));
        lemma_ascending_determined(ta[i].1, tb[i].1);
    }
    assert(ta =~= tb);
}

} // verus!
