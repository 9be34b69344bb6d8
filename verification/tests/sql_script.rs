use dopedb::model::Engine;
use dopedb::sql_script::{
    dollar_tag_len, is_effective, split_statements, split_statements_impl,
};

#[test]
fn splits_quotes_comments_and_dollar_blocks() {
    let sql = r#"
            -- setup
            SELECT 'semi;colon';
            /* block; comment */
            DO $$ BEGIN RAISE NOTICE 'inside;block'; END $$;
            SELECT 2;
        "#;
    let statements = split_statements(sql, Engine::Postgres);
    assert_eq!(statements.len(), 3);
    assert!(statements[0].contains("semi;colon"));
    assert!(statements[1].contains("inside;block"));
    assert!(statements[2].contains("SELECT 2"));
}

#[test]
fn drops_comment_only_segments() {
    let sql = "-- note only;\n/* another note */;\nSELECT 1;";
    let statements = split_statements(sql, Engine::Sqlite);
    assert_eq!(statements, ["SELECT 1"]);
    assert!(!is_effective("-- note\n/* block */"));
    assert!(is_effective("-- lead\nSELECT 1"));
}

#[test]
fn mysql_backslash_escape_keeps_literal_whole() {
    let sql = r"INSERT INTO t VALUES ('a\';b'); INSERT INTO t VALUES ('c');";
    let statements = split_statements(sql, Engine::Mysql);
    assert_eq!(statements.len(), 2);
    assert!(statements[0].contains(r"'a\';b'"));
}

#[test]
fn preserves_doubled_quote_escape() {
    let sql = "SELECT 'it''s; fine'; SELECT \"semi;column\";";
    let statements = split_statements(sql, Engine::Postgres);
    assert_eq!(statements.len(), 2);
}

#[test]
fn a_backslash_escapes_only_for_mysql() {
    let sql = r"SELECT 'a\'; SELECT 'b'";
    assert_eq!(split_statements(sql, Engine::Mysql), [r"SELECT 'a\'; SELECT 'b'"]);
    assert_eq!(split_statements(sql, Engine::Postgres), [r"SELECT 'a\'", "SELECT 'b'"]);
}

#[test]
fn tagged_dollar_blocks_end_at_their_own_tag() {
    let sql = "SELECT $a$ x; $b$ y; $a$; SELECT 2";
    assert_eq!(
        split_statements(sql, Engine::Postgres),
        ["SELECT $a$ x; $b$ y; $a$", "SELECT 2"]
    );
    assert_eq!(dollar_tag_len(b"$tag_1$ x", 0), Some(7));
    assert_eq!(dollar_tag_len(b"$1.50", 0), None);
}

#[test]
fn what_is_left_open_takes_the_rest() {
    assert_eq!(split_statements("SELECT 'a; b", Engine::Postgres), ["SELECT 'a; b"]);
    assert_eq!(split_statements("SELECT 1 /* a; b", Engine::Postgres), ["SELECT 1 /* a; b"]);
    assert_eq!(split_statements("SELECT 1 -- a; b\n; x", Engine::Postgres), [
        "SELECT 1 -- a; b",
        "x"
    ]);
    assert!(split_statements(" ; ;\n", Engine::Postgres).is_empty());
    assert!(split_statements("", Engine::Postgres).is_empty());
}

#[test]
fn text_outside_ascii_is_kept() {
    assert_eq!(split_statements("SELECT 'ü;ß'; SELECT 'é'", Engine::Postgres), [
        "SELECT 'ü;ß'",
        "SELECT 'é'"
    ]);
}

#[test]
fn a_statement_stands_alone() {
    let script = "\u{a0}SELECT ';' -- a; b\n ; SELECT $x$;$x$ ;; /* c; */ UPDATE t SET a = 'it''s;' ; 'open ";
    for escapes in [false, true] {
        let statements = split_statements_impl(script, escapes);
        assert_eq!(statements.len(), 4);
        for statement in &statements {
            assert_eq!(split_statements_impl(statement, escapes), [statement.clone()]);
        }
    }
}

#[test]
fn two_scripts_are_split_apart() {
    let second = "SELECT 2; SELECT 3";
    for first in ["SELECT ';'", "SELECT 1; SELECT $$;$$ ", "-- only; a comment\n", ""] {
        let joined = split_statements_impl(&format!("{first};{second}"), false);
        let mut apart = split_statements_impl(first, false);
        apart.extend(split_statements_impl(second, false));
        assert_eq!(joined, apart);
    }
    assert_eq!(split_statements_impl("SELECT 'open;SELECT 2", false).len(), 1);
}
