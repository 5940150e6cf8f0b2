use vstd::prelude::*;
use crate::fields::{create_line, update_line};
use crate::naming::{base_name, persisted_name, update_name};
use crate::schema::{ColumnsView, TablesView};
use crate::text::{concat_all, starts_with};

verus! {

/// The creation field lines of a table's columns, in order.
pub open spec fn create_columns_text(cols: ColumnsView) -> Seq<char> {
    concat_all(cols.map_values(|c: (Seq<char>, crate::schema::ColumnDataType)| create_line(c.0, c.1)))
}

/// The update field lines of a table's columns, in order.
pub open spec fn update_columns_text(cols: ColumnsView) -> Seq<char> {
    concat_all(cols.map_values(|c: (Seq<char>, crate::schema::ColumnDataType)| update_line(c.0, c.1)))
}

/// The base class of a table: every column, with creation defaults.
pub open spec fn base_block(t: Seq<char>, cols: ColumnsView) -> Seq<char> {
    "class "@ + base_name(t) + "(SQLModel):"@ + create_columns_text(cols)
}

/// The persisted class of a table: the base class and a primary key.
pub open spec fn regular_block(t: Seq<char>) -> Seq<char> {
    "class "@ + persisted_name(t) + "("@ + base_name(t)
        + ", table=True):\n\tid: int | None = Field(default=None, primary_key=True)"@
}

/// The update class of a table: the base class, every column redeclared
/// with an absent default.
pub open spec fn update_block(t: Seq<char>, cols: ColumnsView) -> Seq<char> {
    "class "@ + update_name(t) + "("@ + base_name(t) + "):"@ + update_columns_text(cols)
}

pub open spec fn base_blocks(ts: TablesView) -> Seq<Seq<char>> {
    ts.map_values(|e: (Seq<char>, ColumnsView)| base_block(e.0, e.1))
}

pub open spec fn regular_blocks(ts: TablesView) -> Seq<Seq<char>> {
    ts.map_values(|e: (Seq<char>, ColumnsView)| regular_block(e.0))
}

pub open spec fn update_blocks(ts: TablesView) -> Seq<Seq<char>> {
    ts.map_values(|e: (Seq<char>, ColumnsView)| update_block(e.0, e.1))
}

/// The fixed import preamble of the model module.
pub open spec fn model_imports_text() -> Seq<char> {
    "import datetime\nfrom typing import Union\nfrom sqlmodel import Field, SQLModel"@
}

/// The model module: the preamble, then all base classes, then all
/// persisted classes, then all update classes.
pub open spec fn models_text(ts: TablesView) -> Seq<char> {
    model_imports_text() + "\n"@ + concat_all(base_blocks(ts)) + "\n"@ + concat_all(
        regular_blocks(ts),
    ) + "\n"@ + concat_all(update_blocks(ts))
}

/// The model module holds three classes per table, in three contiguous
/// groups of one class per table each: first every base class, then every
/// persisted class, then every update class, each group in table order.
pub proof fn lemma_models_three_groups(ts: TablesView)
    ensures
        base_blocks(ts).len() == ts.len(),
        regular_blocks(ts).len() == ts.len(),
        update_blocks(ts).len() == ts.len(),
        models_text(ts) == model_imports_text() + "\n"@ + concat_all(base_blocks(ts)) + "\n"@
            + concat_all(regular_blocks(ts)) + "\n"@ + concat_all(update_blocks(ts)),
        forall|i: int|
            0 <= i < ts.len() ==> {
                &&& #[trigger] base_blocks(ts)[i] == base_block(ts[i].0, ts[i].1)
                &&& regular_blocks(ts)[i] == regular_block(ts[i].0)
                &&& update_blocks(ts)[i] == update_block(ts[i].0, ts[i].1)
                &&& starts_with(base_blocks(ts)[i], "class "@ + base_name(ts[i].0))
                &&& starts_with(regular_blocks(ts)[i], "class "@ + persisted_name(ts[i].0))
                &&& starts_with(update_blocks(ts)[i], "class "@ + update_name(ts[i].0))
            },
{
    assert forall|i: int| 0 <= i < ts.len() implies {
        &&& #[trigger] base_blocks(ts)[i] == base_block(ts[i].0, ts[i].1)
        &&& regular_blocks(ts)[i] == regular_block(ts[i].0)
        &&& update_blocks(ts)[i] == update_block(ts[i].0, ts[i].1)
        &&& starts_with(base_blocks(ts)[i], "class "@ + base_name(ts[i].0))
        &&& starts_with(regular_blocks(ts)[i], "class "@ + persisted_name(ts[i].0))
        &&& starts_with(update_blocks(ts)[i], "class "@ + update_name(ts[i].0))
    } by {
        let t = ts[i].0;
        let h1 = "class "@ + base_name(t);
        let h2 = "class "@ + persisted_name(t);
        let h3 = "class "@ + update_name(t);
        assert(base_blocks(ts)[i].subrange(0, h1.len() as int) =~= h1);
        assert(regular_blocks(ts)[i].subrange(0, h2.len() as int) =~= h2);
        assert(update_blocks(ts)[i].subrange(0, h3.len() as int) =~= h3);
    }
}

} // verus!
