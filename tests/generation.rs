use symbiotic::text::name_less;
use symbiotic::{default_version, Column, ColumnDataType, Conf, ConfigParser, LoadError, Table};

fn column(name: &str, d: ColumnDataType) -> (String, Column) {
    (name.to_string(), Column { datatype: d })
}

fn user_conf() -> Conf {
    Conf {
        version: "v1".to_string(),
        tables: vec![(
            "user".to_string(),
            Table {
                columns: vec![
                    column("age", ColumnDataType::Integer),
                    column("name", ColumnDataType::String),
                ],
            },
        )],
    }
}

fn empty_conf() -> Conf {
    Conf { version: "v1".to_string(), tables: vec![] }
}

const USER_MODELS: &str = "import datetime\nfrom typing import Union\nfrom sqlmodel import Field, SQLModel\nclass USER_Base(SQLModel):\n\tage: Union[int, None] = Field(default=None, nullable=True)\n\tname: Union[str, None] = Field(default=None, nullable=True)\nclass USER(USER_Base, table=True):\n\tid: int | None = Field(default=None, primary_key=True)\nclass USER_Update(USER_Base):\n\tage: Union[int, None] = None\n\tname: Union[str, None] = None";

const USER_API_BLOCK: &str = "\n\nuser = APIRouter(\n    prefix='/user',\n    tags=['user'],\n    responses={404: {'description': 'Not found'} },\n)\n\n\n@user.get('/')\nasync def view_all(\n    session: SessionDep,\n    offset: int = 0,\n    limit: Annotated[int, Query(le=100)] = 100\n) -> List[USER]:\n    models = session.exec(select(USER).offset(offset).limit(limit)).all()\n    return models\n\n\n@user.post('/create', response_model=USER)\nasync def create_one(model: USER_Base, session: SessionDep) -> USER:\n    db_model = USER.model_validate(model)\n    session.add(db_model)\n    session.commit()\n    session.refresh(db_model)\n    return db_model\n\n\n@user.get('/{pk}')\nasync def view_one(pk: int, session: SessionDep) -> USER:\n    model = session.get(USER, pk)\n    if not model:\n        raise HTTPException(status_code=404, detail='Not found')\n    return model\n\n\n@user.delete('/{pk}')\nasync def delete_one(pk: int, session: SessionDep) -> JSONResponse:\n    model = session.get(USER, pk)\n    if not model:\n        raise HTTPException(status_code=404, detail='Not found')\n    session.delete(model)\n    session.commit()\n    return JSONResponse(content={'ok': True})\n\n\n@user.patch('/{pk}')\nasync def update_one(pk: int, model: USER_Update, session: SessionDep) -> USER:\n    model_db = session.get(USER, pk)\n    if not model_db:\n        raise HTTPException(status_code=404, detail='Not found')\n    model_data = model.model_dump(exclude_unset=True)\n    model_db.sqlmodel_update(model_data)\n    session.add(model_db)\n    session.commit()\n    session.refresh(model_db)\n    return model_db\n\napp.include_router(user)\n";

const API_PREAMBLE_AND_END: &str = "\nfrom fastapi import FastAPI\nfrom db import create_db_and_tables\nfrom typing import Annotated, List\nfrom fastapi import APIRouter, HTTPException, Query\nfrom fastapi.responses import JSONResponse\nfrom sqlmodel import select\n\nfrom db import SessionDep\nfrom models import *\n\napp = FastAPI()\n\n@app.on_event('startup')\ndef on_startup():\n    create_db_and_tables()\n\n@app.get('/')\nasync def root():\n    return {'message': 'Hello World'}\n\n        ";

#[test]
fn user_schema_models() {
    let parser = ConfigParser::new(user_conf());
    assert_eq!(parser.create_models(), USER_MODELS);
}

#[test]
fn user_schema_model_order() {
    let models = ConfigParser::new(user_conf()).create_models();
    let base = models.find("class USER_Base(SQLModel):").unwrap();
    let persisted = models.find("class USER(USER_Base, table=True):").unwrap();
    let update = models.find("class USER_Update(USER_Base):").unwrap();
    assert!(base < persisted && persisted < update);
    assert_eq!(models.matches("class ").count(), 3);
}

#[test]
fn user_schema_api_block() {
    let parser = ConfigParser::new(user_conf());
    let block = parser.generate_api("user");
    assert_eq!(block, USER_API_BLOCK);
    assert!(block.contains("prefix='/user'"));
    assert!(block.contains("tags=['user']"));
    assert_eq!(block.matches("@user.").count(), 5);
    assert!(block.contains("limit: Annotated[int, Query(le=100)] = 100"));
    assert!(block.contains("model: USER_Base"));
    assert!(block.contains("model: USER_Update"));
    assert!(block.contains("List[USER]"));
    assert!(block.contains("model.model_dump(exclude_unset=True)"));
    assert!(block.contains("model_db = session.get(USER, pk)\n    if not model_db:\n        raise HTTPException(status_code=404"));
    assert!(block.contains("session.refresh(model_db)\n    return model_db\n"));
}

#[test]
fn user_schema_api_module() {
    let api = ConfigParser::new(user_conf()).create_api();
    let end = "\n        ";
    let pre = &API_PREAMBLE_AND_END[..API_PREAMBLE_AND_END.len() - end.len()];
    assert_eq!(api, format!("{pre}{USER_API_BLOCK}{end}"));
}

#[test]
fn empty_schema_models_only_preamble() {
    let models = ConfigParser::new(empty_conf()).create_models();
    assert_eq!(models, "import datetime\nfrom typing import Union\nfrom sqlmodel import Field, SQLModel\n\n\n");
    assert!(!models.contains("class "));
}

#[test]
fn empty_schema_api_only_preamble() {
    let api = ConfigParser::new(empty_conf()).create_api();
    assert_eq!(api, API_PREAMBLE_AND_END);
    assert!(!api.contains("APIRouter("));
}

#[test]
fn three_groups_for_two_tables() {
    let conf = Conf {
        version: "v2".to_string(),
        tables: vec![
            ("a".to_string(), Table { columns: vec![column("x", ColumnDataType::Float)] }),
            ("b".to_string(), Table { columns: vec![] }),
        ],
    };
    let models = ConfigParser::new(conf).create_models();
    let order = [
        "class A_Base(SQLModel):",
        "class B_Base(SQLModel):",
        "class A(A_Base, table=True):",
        "class B(B_Base, table=True):",
        "class A_Update(A_Base):",
        "class B_Update(B_Base):",
    ];
    let positions: Vec<usize> = order.iter().map(|h| models.find(h).unwrap()).collect();
    assert!(positions.windows(2).all(|w| w[0] < w[1]));
    assert_eq!(models.matches("class ").count(), 6);
    assert!(models.contains("class B_Base(SQLModel):\nclass A(A_Base"));
}

#[test]
fn class_names_are_upper_case() {
    let parser = ConfigParser::new(empty_conf());
    assert_eq!(parser.generate_regular_class_name("user"), "USER");
    assert_eq!(parser.generate_base_class_name("user"), "USER_Base");
    assert_eq!(parser.generate_update_class_name("user"), "USER_Update");
    assert_eq!(parser.generate_base_class_name("MixedCase_1"), "MIXEDCASE_1_Base");
}

#[test]
fn datetime_defaults_differ() {
    let parser = ConfigParser::new(empty_conf());
    let create = parser.match_to_sql_type(&ColumnDataType::DateTime);
    let update = parser.match_to_sql_type_update(&ColumnDataType::DateTime);
    assert_ne!(create, update);
    assert_eq!(
        create,
        ": Union[datetime.datetime, None] = Field(default_factory=datetime.datetime.now, nullable=True)"
    );
    assert_eq!(update, ": Union[datetime.datetime, None] = None");
}

#[test]
fn other_types_default_to_absent() {
    let parser = ConfigParser::new(empty_conf());
    for (d, ty) in [
        (ColumnDataType::Integer, "int"),
        (ColumnDataType::String, "str"),
        (ColumnDataType::Float, "float"),
    ] {
        assert_eq!(
            parser.match_to_sql_type(&d),
            format!(": Union[{ty}, None] = Field(default=None, nullable=True)")
        );
        assert_eq!(parser.match_to_sql_type_update(&d), format!(": Union[{ty}, None] = None"));
    }
}

#[test]
fn column_lines() {
    let parser = ConfigParser::new(empty_conf());
    let c = Column { datatype: ColumnDataType::Float };
    assert_eq!(parser.generate_column("w", &c), "\n\tw: Union[float, None] = Field(default=None, nullable=True)");
    assert_eq!(parser.generate_column_update("w", &c), "\n\tw: Union[float, None] = None");
}

#[test]
fn empty_table_classes() {
    let parser = ConfigParser::new(empty_conf());
    let t = Table { columns: vec![] };
    assert_eq!(parser.generate_base_class_object("t", &t), "class T_Base(SQLModel):");
    assert_eq!(parser.generate_update_class_object("t", &t), "class T_Update(T_Base):");
    assert_eq!(
        parser.generate_regular_class_object("t"),
        "class T(T_Base, table=True):\n\tid: int | None = Field(default=None, primary_key=True)"
    );
}

#[test]
fn database_module_is_fixed() {
    let a = ConfigParser::new(empty_conf()).create_database();
    let b = ConfigParser::new(user_conf()).create_database();
    assert_eq!(a, b);
    assert_eq!(a, "\nfrom typing import Annotated\n\nfrom fastapi import Depends\nfrom sqlmodel import Session, SQLModel, create_engine\n\n#### Tables\nfrom models import *\n\n#### Configuration\nsqlite_file_name = 'database.db'\nsqlite_url = f'sqlite:///{sqlite_file_name}'\n\nconnect_args = {'check_same_thread': False}\nengine = create_engine(sqlite_url, connect_args=connect_args)\n\n\ndef create_db_and_tables():\n    SQLModel.metadata.create_all(engine)\n\n\ndef get_session():\n    with Session(engine) as session:\n        yield session\n\n\nSessionDep = Annotated[Session, Depends(get_session)]\n        ");
}

#[test]
fn generate_returns_all_three() {
    let parser = ConfigParser::new(user_conf());
    let (models, api, db) = parser.generate();
    assert_eq!(models, USER_MODELS);
    assert_eq!(api, parser.create_api());
    assert_eq!(db, parser.create_database());
    assert_eq!(parser.version(), "v1");
}

#[test]
fn data_type_names() {
    assert_eq!(ColumnDataType::from_name("Integer"), Some(ColumnDataType::Integer));
    assert_eq!(ColumnDataType::from_name("String"), Some(ColumnDataType::String));
    assert_eq!(ColumnDataType::from_name("Float"), Some(ColumnDataType::Float));
    assert_eq!(ColumnDataType::from_name("DateTime"), Some(ColumnDataType::DateTime));
    assert_eq!(ColumnDataType::from_name("integer"), None);
    assert_eq!(ColumnDataType::from_name(""), None);
}

#[test]
fn load_with_default_version() {
    assert_eq!(default_version(), "v1");
    let raw = vec![(
        "user".to_string(),
        vec![("age".to_string(), "Integer".to_string()), ("name".to_string(), "String".to_string())],
    )];
    let conf = Conf::from_parts(None, raw).unwrap();
    assert_eq!(conf.version, "v1");
    assert_eq!(ConfigParser::new(conf).create_models(), USER_MODELS);
}

#[test]
fn load_keeps_given_version() {
    let conf = Conf::from_parts(Some("v7".to_string()), vec![]).unwrap();
    assert_eq!(conf.version, "v7");
    assert!(conf.tables.is_empty());
}

#[test]
fn load_rejects_unknown_data_type() {
    let raw = vec![
        ("ok".to_string(), vec![("a".to_string(), "Float".to_string())]),
        ("user".to_string(), vec![("age".to_string(), "Integer".to_string()), ("blob".to_string(), "Binary".to_string())]),
    ];
    let err = Conf::from_parts(Some("v1".to_string()), raw).unwrap_err();
    assert_eq!(
        err,
        LoadError::UnknownDataType {
            table: "user".to_string(),
            column: "blob".to_string(),
            datatype: "Binary".to_string(),
        }
    );
}

#[test]
fn load_rejects_columns_out_of_order() {
    let raw = vec![(
        "user".to_string(),
        vec![("name".to_string(), "String".to_string()), ("age".to_string(), "Integer".to_string())],
    )];
    assert_eq!(
        Conf::from_parts(None, raw).unwrap_err(),
        LoadError::ColumnOutOfOrder { table: "user".to_string(), column: "age".to_string() }
    );
}

#[test]
fn load_rejects_duplicate_column() {
    let raw = vec![(
        "t".to_string(),
        vec![("a".to_string(), "String".to_string()), ("a".to_string(), "Float".to_string())],
    )];
    assert_eq!(
        Conf::from_parts(None, raw).unwrap_err(),
        LoadError::ColumnOutOfOrder { table: "t".to_string(), column: "a".to_string() }
    );
}

#[test]
fn load_rejects_tables_out_of_order() {
    let raw = vec![("b".to_string(), vec![]), ("a".to_string(), vec![])];
    assert_eq!(
        Conf::from_parts(None, raw).unwrap_err(),
        LoadError::TableOutOfOrder { table: "a".to_string() }
    );
    let dup = vec![("a".to_string(), vec![]), ("a".to_string(), vec![])];
    assert_eq!(
        Conf::from_parts(None, dup).unwrap_err(),
        LoadError::TableOutOfOrder { table: "a".to_string() }
    );
}

#[test]
fn name_order_is_by_code_point() {
    assert!(name_less("age", "name"));
    assert!(!name_less("name", "age"));
    assert!(name_less("ab", "abc"));
    assert!(!name_less("abc", "ab"));
    assert!(!name_less("same", "same"));
    assert!(name_less("", "a"));
    assert!(name_less("Zed", "apple"));
    assert!(name_less("z", "\u{e9}"));
}
