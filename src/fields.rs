use vstd::prelude::*;
use crate::schema::ColumnDataType;

verus! {

/// The field declaration of a column in base and persisted classes.
pub open spec fn create_fragment(d: ColumnDataType) -> Seq<char> {
    match d {
        ColumnDataType::String => ": Union[str, None] = Field(default=None, nullable=True)"@,
        ColumnDataType::Integer => ": Union[int, None] = Field(default=None, nullable=True)"@,
        ColumnDataType::Float => ": Union[float, None] = Field(default=None, nullable=True)"@,
        ColumnDataType::DateTime =>
            ": Union[datetime.datetime, None] = Field(default_factory=datetime.datetime.now, nullable=True)"@,
    }
}

/// The field declaration of a column in update classes.
pub open spec fn update_fragment(d: ColumnDataType) -> Seq<char> {
    match d {
        ColumnDataType::String => ": Union[str, None] = None"@,
        ColumnDataType::Integer => ": Union[int, None] = None"@,
        ColumnDataType::Float => ": Union[float, None] = None"@,
        ColumnDataType::DateTime => ": Union[datetime.datetime, None] = None"@,
    }
}

/// The nullable type annotation shared by both kinds of declaration.
pub open spec fn type_annotation(d: ColumnDataType) -> Seq<char> {
    match d {
        ColumnDataType::String => ": Union[str, None]"@,
        ColumnDataType::Integer => ": Union[int, None]"@,
        ColumnDataType::Float => ": Union[float, None]"@,
        ColumnDataType::DateTime => ": Union[datetime.datetime, None]"@,
    }
}

/// The default clause of a creation field: absent, except that a timestamp
/// is taken at construction time.
pub open spec fn create_default(d: ColumnDataType) -> Seq<char> {
    match d {
        ColumnDataType::DateTime => " = Field(default_factory=datetime.datetime.now, nullable=True)"@,
        _ => " = Field(default=None, nullable=True)"@,
    }
}

/// The default clause of an update field: always absent.
pub open spec fn update_default() -> Seq<char> {
    " = None"@
}

/// One generated line of a creation field.
pub open spec fn create_line(name: Seq<char>, d: ColumnDataType) -> Seq<char> {
    "\n\t"@ + name + create_fragment(d)
}

/// One generated line of an update field.
pub open spec fn update_line(name: Seq<char>, d: ColumnDataType) -> Seq<char> {
    "\n\t"@ + name + update_fragment(d)
}

/// Both declarations of a column are its type annotation followed by a
/// default clause. The update default is always "absent"; so is the creation
/// default of every type but `DateTime`, whose creation default stamps the
/// current time, so that its two declarations differ.
pub proof fn lemma_fragments_differ_only_in_default(d: ColumnDataType)
    ensures
        create_fragment(d) == type_annotation(d) + create_default(d),
        update_fragment(d) == type_annotation(d) + update_default(),
        d != ColumnDataType::DateTime ==> create_default(d) == " = Field(default=None, nullable=True)"@,
        d == ColumnDataType::DateTime ==> create_fragment(d) != update_fragment(d),
{
    reveal_strlit(" = None");
    reveal_strlit(" = Field(default=None, nullable=True)");
    reveal_strlit(" = Field(default_factory=datetime.datetime.now, nullable=True)");
    match d {
        ColumnDataType::String => {
            reveal_strlit(": Union[str, None] = Field(default=None, nullable=True)");
            reveal_strlit(": Union[str, None] = None");
            reveal_strlit(": Union[str, None]");
            assert(create_fragment(d) =~= type_annotation(d) + create_default(d));
            assert(update_fragment(d) =~= type_annotation(d) + update_default());
        },
        ColumnDataType::Integer => {
            reveal_strlit(": Union[int, None] = Field(default=None, nullable=True)");
            reveal_strlit(": Union[int, None] = None");
            reveal_strlit(": Union[int, None]");
            assert(create_fragment(d) =~= type_annotation(d) + create_default(d));
            assert(update_fragment(d) =~= type_annotation(d) + update_default());
        },
        ColumnDataType::Float => {
            reveal_strlit(": Union[float, None] = Field(default=None, nullable=True)");
            reveal_strlit(": Union[float, None] = None");
            reveal_strlit(": Union[float, None]");
            assert(create_fragment(d) =~= type_annotation(d) + create_default(d));
            assert(update_fragment(d) =~= type_annotation(d) + update_default());
        },
        ColumnDataType::DateTime => {
            reveal_strlit(
                ": Union[datetime.datetime, None] = Field(default_factory=datetime.datetime.now, nullable=True)",
            );
            reveal_strlit(": Union[datetime.datetime, None] = None");
            reveal_strlit(": Union[datetime.datetime, None]");
            assert(create_fragment(d) =~= type_annotation(d) + create_default(d));
            assert(update_fragment(d) =~= type_annotation(d) + update_default());
            assert(create_fragment(d).len() != update_fragment(d).len());
        },
    }
}

} // verus!
