use migration_schema::col::ColType;
use migration_schema::ddl::{
    add_column, add_index, create_table, drop_table, remove_column, remove_index, rename_column,
    rename_table,
};
use migration_schema::table::table_auto_tz;
use sea_orm::sea_query::{Alias, Value};
use sea_orm::{ConnectionTrait, Database, DatabaseConnection, DbErr, QueryResult, Statement};
use sea_orm_migration::SchemaManager;
use std::future::Future;

fn run<F: Future<Output = Result<(), DbErr>>>(scenario: F) {
    tokio::runtime::Builder::new_current_thread()
        .enable_all()
        .build()
        .unwrap()
        .block_on(scenario)
        .unwrap();
}

async fn row(db: &DatabaseConnection, sql: &str) -> Result<Option<QueryResult>, DbErr> {
    db.query_one(Statement::from_string(db.get_database_backend(), sql))
        .await
}

async fn exec(db: &DatabaseConnection, sql: &str) -> Result<(), DbErr> {
    db.execute(Statement::from_string(db.get_database_backend(), sql))
        .await
        .map(|_| ())
}

async fn text(db: &DatabaseConnection, sql: &str) -> Result<Option<String>, DbErr> {
    row(db, sql)
        .await?
        .expect("a row")
        .try_get::<Option<String>>("", "v")
}

async fn users(manager: &SchemaManager<'_>, with_title: bool) -> Result<(), DbErr> {
    let mut stmt = create_table("users");
    stmt.col(ColType::PkAuto.to_def("cities"));
    if with_title {
        stmt.col(ColType::String.to_def("title"));
    }
    manager.create_table(stmt).await
}

#[test]
fn test_create_table() {
    run(async {
        let db = Database::connect("sqlite::memory:").await?;
        let manager = SchemaManager::new(&db);

        users(&manager, true).await?;

        let result = row(
            &db,
            "SELECT name FROM sqlite_master WHERE type='table' AND name='users'",
        )
        .await?;
        assert!(result.is_some());

        Ok(())
    });
}

#[test]
fn test_drop_table() {
    run(async {
        let db = Database::connect("sqlite::memory:").await?;
        let manager = SchemaManager::new(&db);

        users(&manager, true).await?;

        manager.drop_table(drop_table("users")).await?;

        let result = row(
            &db,
            "SELECT name FROM sqlite_master WHERE type='table' AND name='users'",
        )
        .await?;
        assert!(result.is_none());
        Ok(())
    });
}

#[test]
fn test_add_column() {
    run(async {
        let db = Database::connect("sqlite::memory:").await?;
        let manager = SchemaManager::new(&db);

        users(&manager, false).await?;

        manager
            .alter_table(add_column("users", ColType::String.to_def("title")))
            .await?;

        let result = row(
            &db,
            "SELECT sql FROM sqlite_master WHERE type='table' AND name='users'",
        )
        .await?;

        assert!(result
            .unwrap()
            .try_get::<String>("", "sql")
            .unwrap()
            .contains("title"));

        Ok(())
    });
}

#[test]
fn test_remove_column() {
    run(async {
        let db = Database::connect("sqlite::memory:").await?;
        let manager = SchemaManager::new(&db);

        users(&manager, true).await?;

        manager.alter_table(remove_column("users", "title")).await?;

        let result = row(
            &db,
            "SELECT sql FROM sqlite_master WHERE type='table' AND name='users'",
        )
        .await?;

        assert!(!result
            .unwrap()
            .try_get::<String>("", "sql")
            .unwrap()
            .contains("title"));

        Ok(())
    });
}

#[test]
fn test_rename_column() {
    run(async {
        let db = Database::connect("sqlite::memory:").await?;
        let manager = SchemaManager::new(&db);

        let mut stmt = create_table("users");
        stmt.col(ColType::PkAuto.to_def("cities"));
        stmt.col(ColType::String.to_def("old_title"));
        manager.create_table(stmt).await?;

        manager
            .alter_table(rename_column("users", "old_title", "new_title"))
            .await?;

        let result = row(
            &db,
            "SELECT sql FROM sqlite_master WHERE type='table' AND name='users'",
        )
        .await?;

        assert!(result
            .unwrap()
            .try_get::<String>("", "sql")
            .unwrap()
            .contains("new_title"));

        Ok(())
    });
}

#[test]
fn test_add_index() {
    run(async {
        let db = Database::connect("sqlite::memory:").await?;
        let manager = SchemaManager::new(&db);

        users(&manager, true).await?;

        let mut index = add_index("users");
        index.name("idx-users-title").col(Alias::new("title"));
        manager.create_index(index).await?;

        let result = row(
            &db,
            "SELECT name FROM sqlite_master WHERE type='index' AND name='idx-users-title'",
        )
        .await?;

        assert!(result.is_some());

        Ok(())
    });
}

#[test]
fn test_remove_index() {
    run(async {
        let db = Database::connect("sqlite::memory:").await?;
        let manager = SchemaManager::new(&db);

        users(&manager, true).await?;

        let mut index = add_index("users");
        index.name("idx-users-title").col(Alias::new("title"));
        manager.create_index(index).await?;

        manager
            .drop_index(remove_index("users", "idx-users-title"))
            .await?;

        let result = row(
            &db,
            "SELECT name FROM sqlite_master WHERE type='index' AND name='idx-users-title'",
        )
        .await?;

        assert!(result.is_none());

        Ok(())
    });
}

#[test]
fn test_rename_table() {
    run(async {
        let db = Database::connect("sqlite::memory:").await?;
        let manager = SchemaManager::new(&db);

        users(&manager, false).await?;

        manager
            .rename_table(rename_table("users", "customers"))
            .await?;

        let result = row(
            &db,
            "SELECT name FROM sqlite_master WHERE type='table' AND name='customers'",
        )
        .await?;
        assert!(result.is_some());

        let result = row(
            &db,
            "SELECT name FROM sqlite_master WHERE type='table' AND name='users'",
        )
        .await?;
        assert!(result.is_none());

        Ok(())
    });
}

#[test]
fn creating_a_table_twice_is_no_error() {
    run(async {
        let db = Database::connect("sqlite::memory:").await?;
        let manager = SchemaManager::new(&db);
        users(&manager, true).await?;
        exec(&db, r#"INSERT INTO "users" ("title") VALUES ('kept')"#).await?;
        users(&manager, true).await?;
        assert_eq!(
            text(&db, r#"SELECT "title" AS v FROM "users""#).await?,
            Some("kept".to_string())
        );
        Ok(())
    });
}

#[test]
fn a_row_without_the_column_gets_the_declared_default() {
    run(async {
        let db = Database::connect("sqlite::memory:").await?;
        let manager = SchemaManager::new(&db);
        let mut stmt = create_table("samples");
        stmt.col(ColType::PkAuto.to_def("id"));
        stmt.col(ColType::IntegerWithDefault(-42).to_def("an_integer"));
        stmt.col(ColType::UnsignedWithDefault(42).to_def("an_unsigned"));
        stmt.col(ColType::SmallUnsignedWithDefault(7).to_def("a_small_unsigned"));
        stmt.col(ColType::BigUnsignedWithDefault(9_000_000_000).to_def("a_big_unsigned"));
        stmt.col(ColType::SmallIntegerWithDefault(-7).to_def("a_small_integer"));
        stmt.col(ColType::BigIntegerWithDefault(-9_000_000_000).to_def("a_big_integer"));
        stmt.col(ColType::BooleanWithDefault(true).to_def("a_boolean"));
        stmt.col(ColType::CharWithDefault('x').to_def("a_char"));
        stmt.col(ColType::CharLenWithDefault(3, 'y').to_def("a_char_len"));
        stmt.col(ColType::StringWithDefault("draft".to_string()).to_def("a_string"));
        stmt.col(ColType::StringLenWithDefault(20, "it's".to_string()).to_def("a_string_len"));
        stmt.col(ColType::TextWithDefault("".to_string()).to_def("a_text"));
        stmt.col(ColType::DateWithDefault("2024-01-31".to_string()).to_def("a_date"));
        stmt.col(
            ColType::DateTimeWithDefault("2024-01-31 10:00:00".to_string()).to_def("a_date_time"),
        );
        stmt.col(ColType::TimeWithDefault("10:00:00".to_string()).to_def("a_time"));
        stmt.col(
            ColType::TimestampWithTimeZoneWithDefault("2024-01-31 10:00:00+00:00".to_string())
                .to_def("a_timestamp"),
        );
        stmt.col(ColType::DecimalWithDefault(Value::from(1.5f64)).to_def("a_decimal"));
        stmt.col(
            ColType::DecimalLenWithDefault(10, 2, Value::from(0.25f64)).to_def("a_decimal_len"),
        );
        stmt.col(ColType::FloatWithDefault(Value::from(2.5f32)).to_def("a_float"));
        stmt.col(ColType::DoubleWithDefault(Value::from(-3.75f64)).to_def("a_double"));
        stmt.col(ColType::MoneyWithDefault(Value::from(9.5f64)).to_def("a_money"));
        stmt.col(
            ColType::EnumWithDefault("mood".to_string(), vec![], "happy".to_string())
                .to_def("an_enum"),
        );
        stmt.col(
            ColType::EnumNullWithDefault("mood".to_string(), vec![], "sad".to_string())
                .to_def("an_enum_null"),
        );
        stmt.col(
            ColType::UuidWithDefault("(lower(hex(randomblob(16))))".to_string()).to_def("a_uuid"),
        );
        stmt.col(
            ColType::UuidUniqWithDefault("(lower(hex(randomblob(16))))".to_string())
                .to_def("a_uuid_uniq"),
        );
        manager.create_table(stmt).await?;

        exec(&db, r#"INSERT INTO "samples" ("id") VALUES (1)"#).await?;

        let expected = vec![
            ("an_integer", "-42"),
            ("an_unsigned", "42"),
            ("a_small_unsigned", "7"),
            ("a_big_unsigned", "9000000000"),
            ("a_small_integer", "-7"),
            ("a_big_integer", "-9000000000"),
            ("a_boolean", "1"),
            ("a_char", "x"),
            ("a_char_len", "y"),
            ("a_string", "draft"),
            ("a_string_len", "it's"),
            ("a_text", ""),
            ("a_date", "2024-01-31"),
            ("a_date_time", "2024-01-31 10:00:00"),
            ("a_time", "10:00:00"),
            ("a_timestamp", "2024-01-31 10:00:00+00:00"),
            ("a_decimal", "1.5"),
            ("a_decimal_len", "0.25"),
            ("a_float", "2.5"),
            ("a_double", "-3.75"),
            ("a_money", "9.5"),
            ("an_enum", "happy"),
            ("an_enum_null", "sad"),
        ];
        for (column, value) in expected {
            let sql = format!(r#"SELECT CAST("{}" AS TEXT) AS v FROM "samples""#, column);
            assert_eq!(
                text(&db, &sql).await?,
                Some(value.to_string()),
                "{}",
                column
            );
        }
        for column in vec!["a_uuid", "a_uuid_uniq"] {
            let sql = format!(r#"SELECT CAST("{}" AS TEXT) AS v FROM "samples""#, column);
            let made = text(&db, &sql).await?.expect("a value");
            assert_eq!(made.len(), 32, "{}", column);
        }
        Ok(())
    });
}

#[test]
fn audit_columns_are_filled_when_a_row_is_inserted() {
    run(async {
        let db = Database::connect("sqlite::memory:").await?;
        let manager = SchemaManager::new(&db);
        let mut stmt = table_auto_tz("posts");
        stmt.col(ColType::PkAuto.to_def("id"));
        manager.create_table(stmt).await?;

        let columns = text(
            &db,
            r#"SELECT group_concat(name, ',') AS v FROM pragma_table_info('posts')"#,
        )
        .await?;
        assert_eq!(columns, Some("created_at,updated_at,id".to_string()));
        let required = text(
            &db,
            r#"SELECT group_concat("notnull", ',') AS v FROM pragma_table_info('posts') WHERE name LIKE '%_at'"#,
        )
        .await?;
        assert_eq!(required, Some("1,1".to_string()));

        let now = "SELECT CAST(datetime('now') AS TEXT) AS v";
        let before = text(&db, now).await?.expect("a time");
        exec(&db, r#"INSERT INTO "posts" ("id") VALUES (1)"#).await?;
        let after = text(&db, now).await?.expect("a time");

        let created = text(&db, r#"SELECT CAST("created_at" AS TEXT) AS v FROM "posts""#)
            .await?
            .expect("a creation time");
        let updated = text(&db, r#"SELECT CAST("updated_at" AS TEXT) AS v FROM "posts""#)
            .await?
            .expect("an update time");
        assert_eq!(created.len(), "2024-01-31 10:00:00".len());
        assert!(before <= created && created <= after, "{} {} {}", before, created, after);
        assert_eq!(created, updated);

        let refused = exec(
            &db,
            r#"INSERT INTO "posts" ("id", "created_at") VALUES (2, NULL)"#,
        )
        .await;
        assert!(refused.is_err());
        Ok(())
    });
}

#[test]
fn a_table_through_its_changes() {
    run(async {
        let db = Database::connect("sqlite::memory:").await?;
        let manager = SchemaManager::new(&db);
        let in_catalog = "SELECT name AS v FROM sqlite_master WHERE type='table' AND name=";
        let column_names = |table: &str| {
            format!(
                "SELECT group_concat(name, ',') AS v FROM pragma_table_info('{}')",
                table
            )
        };

        let mut stmt = create_table("users");
        stmt.col(ColType::PkAuto.to_def("id"));
        stmt.col(ColType::String.to_def("name"));
        manager.create_table(stmt).await?;
        assert!(row(&db, &format!("{}'users'", in_catalog)).await?.is_some());
        exec(&db, r#"INSERT INTO "users" ("name") VALUES ('ada')"#).await?;
        exec(&db, r#"INSERT INTO "users" ("name") VALUES ('grace')"#).await?;
        assert_eq!(
            text(&db, r#"SELECT CAST("id" AS TEXT) AS v FROM "users" WHERE "name" = 'grace'"#)
                .await?,
            Some("2".to_string())
        );
        assert!(exec(&db, r#"INSERT INTO "users" ("name") VALUES (NULL)"#)
            .await
            .is_err());

        manager
            .alter_table(add_column("users", ColType::StringNull.to_def("title")))
            .await?;
        assert_eq!(
            text(&db, &column_names("users")).await?,
            Some("id,name,title".to_string())
        );
        assert_eq!(
            text(&db, r#"SELECT "title" AS v FROM "users" WHERE "name" = 'ada'"#).await?,
            None
        );
        exec(&db, r#"UPDATE "users" SET "title" = 'countess' WHERE "name" = 'ada'"#).await?;

        manager
            .alter_table(rename_column("users", "title", "rank"))
            .await?;
        assert_eq!(
            text(&db, &column_names("users")).await?,
            Some("id,name,rank".to_string())
        );
        assert_eq!(
            text(&db, r#"SELECT "rank" AS v FROM "users" WHERE "name" = 'ada'"#).await?,
            Some("countess".to_string())
        );

        manager.alter_table(remove_column("users", "rank")).await?;
        assert_eq!(
            text(&db, &column_names("users")).await?,
            Some("id,name".to_string())
        );

        manager
            .rename_table(rename_table("users", "customers"))
            .await?;
        assert!(row(&db, &format!("{}'users'", in_catalog)).await?.is_none());
        assert!(row(&db, &format!("{}'customers'", in_catalog))
            .await?
            .is_some());
        assert_eq!(
            text(
                &db,
                r#"SELECT group_concat("name", ',') AS v FROM (SELECT "name" FROM "customers" ORDER BY "id")"#
            )
            .await?,
            Some("ada,grace".to_string())
        );
        Ok(())
    });
}
