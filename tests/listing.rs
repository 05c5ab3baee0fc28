use patchstorage::catalog::Patch;
use patchstorage::link::{has_next, rels_have_next, LinkError};
use patchstorage::pager::{turn_page, GetPatchesRequest, PatchesPage};
use patchstorage::url::{list_page_url, patch_url};

fn patch(id: u64, slug: &str) -> Patch {
    Patch { id, slug: slug.to_string() }
}

#[test]
fn next_relation_continues() {
    let header = r#"<https://patchstorage.com/api/beta/patches/?platforms=8008&page=2>; rel="next""#;
    assert_eq!(has_next(Some(header)), Ok(true));
}

#[test]
fn next_among_several_relations_continues() {
    let header = r#"<https://example.com/?page=1>; rel="prev", <https://example.com/?page=3>; rel="next", <https://example.com/?page=9>; rel="last""#;
    assert_eq!(has_next(Some(header)), Ok(true));
}

#[test]
fn only_prev_relation_stops() {
    let header = r#"<https://example.com/?page=1>; rel="prev""#;
    assert_eq!(has_next(Some(header)), Ok(false));
}

#[test]
fn absent_link_header_is_missing() {
    assert_eq!(has_next(None), Err(LinkError::MissingHeader));
}

#[test]
fn parameter_without_value_is_malformed() {
    assert_eq!(has_next(Some("<https://example.com/?page=2>; rel")), Err(LinkError::Malformed));
}

#[test]
fn entry_without_rel_is_malformed() {
    let header = r#"<https://example.com/?page=2>; type="text""#;
    assert_eq!(has_next(Some(header)), Err(LinkError::Malformed));
}

#[test]
fn relation_names_are_searched_for_next() {
    let rels = vec!["prev".to_string(), "next".to_string()];
    assert!(rels_have_next(&rels));
    let rels = vec!["prev".to_string(), "last".to_string(), "nextpage".to_string()];
    assert!(!rels_have_next(&rels));
    assert!(!rels_have_next(&Vec::new()));
}

#[test]
fn list_page_address() {
    let request = GetPatchesRequest { platform: 8008, page: 3 };
    assert_eq!(
        request.build(),
        "https://patchstorage.com/api/beta/patches/?platforms=8008&page=3"
    );
    assert_eq!(
        list_page_url(0, 10),
        "https://patchstorage.com/api/beta/patches/?platforms=0&page=10"
    );
}

#[test]
fn patch_address() {
    assert_eq!(patch_url(7), "https://patchstorage.com/api/beta/patches/7");
    assert_eq!(patch_url(1234567), "https://patchstorage.com/api/beta/patches/1234567");
}

#[test]
fn first_request_is_page_one() {
    assert_eq!(GetPatchesRequest::first(3003), GetPatchesRequest { platform: 3003, page: 1 });
}

#[test]
fn page_with_next_advances() {
    let request = GetPatchesRequest { platform: 8008, page: 4 };
    let page = PatchesPage { patches: vec![patch(1, "a"), patch(2, "b")], has_next: true };
    let turned = turn_page(request, page);
    assert_eq!(turned.items.len(), 2);
    assert_eq!(turned.items[0].slug, "a");
    assert_eq!(turned.items[1].id, 2);
    assert_eq!(turned.next, Some(GetPatchesRequest { platform: 8008, page: 5 }));
}

#[test]
fn page_without_next_is_last() {
    let request = GetPatchesRequest { platform: 8008, page: 4 };
    let page = PatchesPage { patches: vec![patch(9, "z")], has_next: false };
    let turned = turn_page(request, page);
    assert_eq!(turned.items[0].id, 9);
    assert_eq!(turned.next, None);
}

#[test]
fn reader_stops_after_last_announced_page() {
    let continuations = [true, true, true, false, true, true];
    let mut state = Some(GetPatchesRequest::first(8008));
    let mut pages_asked = Vec::new();
    let mut k = 0;
    while let Some(request) = state {
        pages_asked.push(request.page);
        let page = PatchesPage { patches: vec![patch(k as u64, "p")], has_next: continuations[k] };
        state = turn_page(request, page).next;
        k += 1;
    }
    assert_eq!(pages_asked, vec![1, 2, 3, 4]);
}

#[test]
fn single_page_listing_yields_one_batch() {
    let request = GetPatchesRequest::first(8008);
    let page = PatchesPage { patches: vec![patch(7, "patch-a")], has_next: false };
    let turned = turn_page(request, page);
    assert_eq!(turned.items.len(), 1);
    assert_eq!(turned.next, None);
}
