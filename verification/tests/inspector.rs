use slog_derive::model::{AnnBody, Annotation};
use slog_derive::utils::{contains_named_attr, slog_attributes};

fn convert_attrs(attrs: &[syn::Attribute]) -> Vec<Annotation> {
    attrs
        .iter()
        .map(|attr| {
            let tag = attr
                .path()
                .get_ident()
                .map(|i| i.to_string())
                .unwrap_or_default();
            let body = match &attr.meta {
                syn::Meta::List(list) => {
                    let nested = list
                        .parse_args_with(
                            syn::punctuated::Punctuated::<syn::Meta, syn::token::Comma>::parse_terminated,
                        )
                        .unwrap_or_default();
                    AnnBody::List(
                        nested
                            .iter()
                            .filter_map(|m| m.path().get_ident().map(|i| i.to_string()))
                            .collect(),
                    )
                }
                _ => AnnBody::Plain,
            };
            Annotation { tag, body }
        })
        .collect()
}

fn list(tag: &str, names: &[&str]) -> Annotation {
    Annotation {
        tag: tag.to_owned(),
        body: AnnBody::List(names.iter().map(|n| (*n).to_owned()).collect()),
    }
}

#[test]
fn find_the_skip_attribute() {
    let src = "#[slog(skip)] struct Foo {}";
    let foo: syn::DeriveInput = syn::parse_str(src).unwrap();
    let attrs = convert_attrs(&foo.attrs);

    assert!(contains_named_attr(&attrs, "skip"));
}

#[test]
fn no_attrs_means_no_marker() {
    let attrs: Vec<Annotation> = Vec::new();
    assert!(!contains_named_attr(&attrs, "skip"));
}

#[test]
fn bare_marker_without_namespace_is_not_found() {
    let attrs = vec![Annotation {
        tag: "skip".to_owned(),
        body: AnnBody::Plain,
    }];
    assert!(!contains_named_attr(&attrs, "skip"));
}

#[test]
fn other_namespace_is_ignored() {
    let attrs = vec![list("serde", &["skip"])];
    assert!(!contains_named_attr(&attrs, "skip"));
}

#[test]
fn marker_found_among_several_entries() {
    let attrs = vec![list("serde", &["rename"]), list("slog", &["a", "skip"])];
    assert!(contains_named_attr(&attrs, "skip"));
    assert!(!contains_named_attr(&attrs, "rename"));
}

#[test]
fn slog_attributes_flatten_in_order() {
    let attrs = vec![
        list("slog", &["skip", "no_value_impl"]),
        list("serde", &["rename"]),
        Annotation {
            tag: "slog".to_owned(),
            body: AnnBody::Plain,
        },
        list("slog", &["other"]),
    ];
    let entries = slog_attributes(&attrs);
    assert_eq!(entries, vec!["skip", "no_value_impl", "other"]);
}
