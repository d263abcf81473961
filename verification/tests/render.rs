use upsert_actions::backend::{Backend, Pg};
use upsert_actions::changeset::{Assignment, AssignmentSet};
use upsert_actions::expression::walk_expression_on;
use upsert_actions::query_builder::{AstPass, BuildError, QueryFragment};
use upsert_actions::schema::{Email, Users};
use upsert_actions::upsert::{excluded, DoNothing, DoUpdate};

#[test]
fn do_nothing_renders_do_nothing() {
    let mut out = AstPass::new();
    let r = QueryFragment::<Pg>::walk_ast(&DoNothing, &mut out);
    assert!(r.is_ok());
    assert_eq!(out.sql_str(), " DO NOTHING");
    assert!(out.is_safe_to_cache_prepared());
}

#[test]
fn empty_update_degrades_to_do_nothing() {
    let set = AssignmentSet::new();
    let action = DoUpdate::new(set);
    let mut out = AstPass::new();
    let r = QueryFragment::<Pg>::walk_ast(&action, &mut out);
    assert!(r.is_ok());
    assert_eq!(out.sql_str(), " DO NOTHING");
    assert!(!out.is_safe_to_cache_prepared());
}

#[test]
fn nonempty_update_renders_update() {
    let mut set = AssignmentSet::new();
    set.push(Assignment::new("name".to_owned(), "'bob'".to_owned()));
    let action = DoUpdate::new(set);
    let mut out = AstPass::new();
    let r = QueryFragment::<Pg>::walk_ast(&action, &mut out);
    assert!(r.is_ok());
    assert_eq!(out.sql_str(), " DO UPDATE SET name = 'bob'");
    assert!(!out.is_safe_to_cache_prepared());
}

#[test]
fn update_renders_assignments_comma_separated() {
    let mut set = AssignmentSet::new();
    set.push(Assignment::new("name".to_owned(), "'bob'".to_owned()));
    set.push(Assignment::new("email".to_owned(), "excluded.\"email\"".to_owned()));
    assert_eq!(set.len(), 2);
    let action = DoUpdate::new(set);
    let mut out = AstPass::new();
    let r = QueryFragment::<Pg>::walk_ast(&action, &mut out);
    assert!(r.is_ok());
    assert_eq!(
        out.sql_str(),
        " DO UPDATE SET name = 'bob', email = excluded.\"email\""
    );
}

#[test]
fn excluded_renders_quoted_column() {
    let reference = excluded(Email);
    let mut out = AstPass::new();
    let r = QueryFragment::<Pg>::walk_ast(&reference, &mut out);
    assert!(r.is_ok());
    assert_eq!(out.sql_str(), "excluded.\"email\"");
    assert!(out.is_safe_to_cache_prepared());
}

#[test]
fn excluded_is_an_expression_on_its_table() {
    let reference = excluded(Email);
    let mut out = AstPass::new();
    let r = walk_expression_on::<Pg, Users, _>(&reference, &mut out);
    assert!(r.is_ok());
    assert_eq!(out.sql_str(), "excluded.\"email\"");
}

#[test]
fn rendering_twice_is_byte_identical() {
    let mut set = AssignmentSet::new();
    set.push(Assignment::new("name".to_owned(), "'bob'".to_owned()));
    let action = DoUpdate::new(set);
    let mut first = AstPass::new();
    let mut second = AstPass::new();
    assert!(QueryFragment::<Pg>::walk_ast(&action, &mut first).is_ok());
    assert!(QueryFragment::<Pg>::walk_ast(&action, &mut second).is_ok());
    assert_eq!(first.sql_str(), second.sql_str());

    let reference = excluded(Email);
    let mut third = AstPass::new();
    let mut fourth = AstPass::new();
    assert!(QueryFragment::<Pg>::walk_ast(&reference, &mut third).is_ok());
    assert!(QueryFragment::<Pg>::walk_ast(&reference, &mut fourth).is_ok());
    assert_eq!(third.sql_str(), fourth.sql_str());
}

#[test]
fn empty_set_is_noop_and_nonempty_is_not() {
    let empty = AssignmentSet::new();
    assert_eq!(QueryFragment::<Pg>::is_noop(&empty), Ok(true));
    let mut set = AssignmentSet::new();
    set.push(Assignment::new("name".to_owned(), "'bob'".to_owned()));
    assert_eq!(QueryFragment::<Pg>::is_noop(&set), Ok(false));
}

#[test]
fn emptiness_error_propagates_unchanged() {
    let mut set = AssignmentSet::new();
    set.push(Assignment::new(String::new(), "'x'".to_owned()));
    assert_eq!(
        QueryFragment::<Pg>::is_noop(&set),
        Err(BuildError::EmptyColumnName)
    );
    let action = DoUpdate::new(set);
    let mut out = AstPass::new();
    let r = QueryFragment::<Pg>::walk_ast(&action, &mut out);
    assert_eq!(r, Err(BuildError::EmptyColumnName));
    // The cacheability downgrade happens before the emptiness query,
    // so it stays in force even when rendering fails.
    assert!(!out.is_safe_to_cache_prepared());
}

#[test]
fn malformed_set_fails_its_own_render() {
    let mut set = AssignmentSet::new();
    set.push(Assignment::new("name".to_owned(), "'bob'".to_owned()));
    set.push(Assignment::new(String::new(), "'x'".to_owned()));
    let mut out = AstPass::new();
    let r = QueryFragment::<Pg>::walk_ast(&set, &mut out);
    assert_eq!(r, Err(BuildError::EmptyColumnName));
}

#[test]
fn cacheability_downgrade_is_one_way() {
    let mut out = AstPass::new();
    let action = DoUpdate::new(AssignmentSet::new());
    assert!(QueryFragment::<Pg>::walk_ast(&action, &mut out).is_ok());
    assert!(!out.is_safe_to_cache_prepared());
    // A cache-preserving fragment rendered afterwards must not
    // re-enable caching.
    assert!(QueryFragment::<Pg>::walk_ast(&DoNothing, &mut out).is_ok());
    assert!(!out.is_safe_to_cache_prepared());
    assert_eq!(out.sql_str(), " DO NOTHING DO NOTHING");
}

#[test]
fn pg_quotes_identifiers() {
    assert_eq!(<Pg as Backend>::quote_identifier("email"), "\"email\"");
    assert_eq!(<Pg as Backend>::quote_identifier(""), "\"\"");
}

#[test]
fn pg_doubles_embedded_quotes() {
    assert_eq!(
        <Pg as Backend>::quote_identifier("we\"ird"),
        "\"we\"\"ird\""
    );
    assert_eq!(<Pg as Backend>::quote_identifier("\""), "\"\"\"\"");
    assert_eq!(<Pg as Backend>::quote_identifier("naïve"), "\"naïve\"");
}

#[test]
fn actions_themselves_are_not_noops() {
    assert_eq!(QueryFragment::<Pg>::is_noop(&DoNothing), Ok(false));
    let action = DoUpdate::new(AssignmentSet::new());
    assert_eq!(QueryFragment::<Pg>::is_noop(&action), Ok(false));
    assert_eq!(QueryFragment::<Pg>::is_noop(&excluded(Email)), Ok(false));
}
