use slog_derive::derive_kv::{impl_kv, kv_serialize};
use slog_derive::derive_serde_value::impl_serde_value;
use slog_derive::model::{AnnBody, Annotation, DeriveError, GlueFn, Member, RecordDef};
use slog_derive::utils::CollectFields;

fn slog_list(names: &[&str]) -> Annotation {
    Annotation {
        tag: "slog".to_owned(),
        body: AnnBody::List(names.iter().map(|n| (*n).to_owned()).collect()),
    }
}

fn named(name: &str) -> Member {
    Member {
        name: Some(name.to_owned()),
        attrs: Vec::new(),
    }
}

fn skipped(name: &str) -> Member {
    Member {
        name: Some(name.to_owned()),
        attrs: vec![slog_list(&["skip"])],
    }
}

fn record(name: &str, attrs: Vec<Annotation>, members: Vec<Member>) -> RecordDef {
    RecordDef {
        name: name.to_owned(),
        attrs,
        members,
    }
}

#[test]
fn kv_filters_skipped_members() {
    let rec = record(
        "Foo",
        Vec::new(),
        vec![named("a"), skipped("b"), named("c")],
    );
    let glue = impl_kv(&rec).unwrap();
    assert_eq!(glue.record_name, "Foo");
    assert_eq!(
        glue.fns,
        vec![GlueFn::KvSerialize(vec!["a".to_owned(), "c".to_owned()])]
    );
}

#[test]
fn kv_emits_config_keys_in_declaration_order() {
    let rec = record(
        "Config",
        Vec::new(),
        vec![named("width"), named("height"), skipped("output_file")],
    );
    let glue = impl_kv(&rec).unwrap();
    assert_eq!(
        glue.fns,
        vec![GlueFn::KvSerialize(vec![
            "width".to_owned(),
            "height".to_owned()
        ])]
    );
}

#[test]
fn kv_rejects_tuple_record() {
    let rec = record(
        "Pair",
        Vec::new(),
        vec![
            Member {
                name: None,
                attrs: Vec::new(),
            },
            Member {
                name: None,
                attrs: Vec::new(),
            },
        ],
    );
    assert_eq!(impl_kv(&rec), Err(DeriveError::UnsupportedShape));
}

#[test]
fn kv_rejects_tuple_record_even_when_skipped() {
    let rec = record(
        "Pair",
        Vec::new(),
        vec![
            named("a"),
            Member {
                name: None,
                attrs: vec![slog_list(&["skip"])],
            },
        ],
    );
    assert_eq!(impl_kv(&rec), Err(DeriveError::UnsupportedShape));
}

#[test]
fn collector_keeps_declaration_order() {
    let mut cf = CollectFields::default();
    let rec = record(
        "Foo",
        Vec::new(),
        vec![named("first"), named("second"), skipped("third"), named("fourth")],
    );
    assert_eq!(cf.visit_record(&rec), Ok(()));
    assert_eq!(cf.fields, vec!["first", "second", "fourth"]);
}

#[test]
fn serde_value_emits_all_three_functions() {
    let rec = record("Config", Vec::new(), vec![named("width"), named("height")]);
    let glue = impl_serde_value(&rec);
    assert_eq!(glue.record_name, "Config");
    assert_eq!(
        glue.fns,
        vec![GlueFn::AsSerde, GlueFn::ToSendable, GlueFn::ValueSerialize]
    );
}

#[test]
fn serde_value_suppressed_by_marker() {
    let rec = record(
        "Config",
        vec![slog_list(&["no_value_impl"])],
        vec![named("width"), named("height")],
    );
    let glue = impl_serde_value(&rec);
    assert_eq!(glue.fns, vec![GlueFn::AsSerde, GlueFn::ToSendable]);
}

#[test]
fn serde_value_accepts_tuple_records() {
    let rec = record(
        "Pair",
        Vec::new(),
        vec![Member {
            name: None,
            attrs: Vec::new(),
        }],
    );
    let glue = impl_serde_value(&rec);
    assert_eq!(
        glue.fns,
        vec![GlueFn::AsSerde, GlueFn::ToSendable, GlueFn::ValueSerialize]
    );
}

#[test]
fn generation_is_deterministic() {
    let build = || {
        record(
            "Config",
            vec![slog_list(&["no_value_impl"])],
            vec![named("width"), skipped("height")],
        )
    };
    assert_eq!(impl_kv(&build()), impl_kv(&build()));
    assert_eq!(impl_serde_value(&build()), impl_serde_value(&build()));
}

#[test]
fn kv_glue_emits_every_key_on_success() {
    let keys = vec!["a".to_owned(), "b".to_owned(), "c".to_owned()];
    let outcomes: Vec<Result<(), u64>> = vec![Ok(()), Ok(()), Ok(())];
    let run = kv_serialize(&keys, &outcomes);
    assert_eq!(run.emitted, keys);
    assert_eq!(run.outcome, Ok(()));
}

#[test]
fn kv_glue_stops_at_first_failure() {
    let keys = vec!["a".to_owned(), "b".to_owned(), "c".to_owned()];
    let outcomes: Vec<Result<(), u64>> = vec![Ok(()), Err(7), Ok(())];
    let run = kv_serialize(&keys, &outcomes);
    assert_eq!(run.emitted, vec!["a".to_owned()]);
    assert_eq!(run.outcome, Err(7));
}
