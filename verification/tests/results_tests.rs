use clipper::actions::{Field, FieldKind, Icon, OpenFormAction, ResultAction, SearchResult};
use clipper::db::{Clip, ClipType, Database};
use clipper::results::{
    add_entry, copy_entry, delete_entry, edit_entry, handle_results, is_edit_keyword,
    list_actions, selects, SearchQuery, EXTENSION_ID,
};

fn clip(id: usize, keyword: &str, name: &str, content: &str, clip_type: ClipType) -> Clip {
    Clip {
        id,
        keyword: keyword.to_string(),
        name: name.to_string(),
        content: content.to_string(),
        clip_type,
    }
}

fn sample_store() -> Database {
    let mut db = Database::new();
    db.add_clip(clip(0, "todo", "Shopping list for the week", "buy {%0} and {%1}; all: {%s}", ClipType::Text));
    db.add_clip(clip(2, "sig", "Mail signature", "Kind regards,\n{%s}", ClipType::TextArea));
    db.add_clip(clip(5, "logo", "Company logo", "/home/me/logo.png", ClipType::Image));
    db
}

fn plain(text: &str) -> SearchQuery {
    SearchQuery { keyword: None, search_text: text.to_string() }
}

fn keyed(keyword: &str, text: &str) -> SearchQuery {
    SearchQuery { keyword: Some(keyword.to_string()), search_text: text.to_string() }
}

fn form_of(entry: &SearchResult) -> &OpenFormAction {
    match &entry.action {
        ResultAction::OpenForm(form) => form,
        other => panic!("no form: {:?}", other),
    }
}

fn titles(results: &[SearchResult]) -> Vec<String> {
    results.iter().map(|r| r.title.clone()).collect()
}

fn bundled(entry: &SearchResult) -> String {
    match &entry.icon {
        Icon::Bundled(name) => name.clone(),
        other => panic!("no bundled icon: {:?}", other),
    }
}

fn check_text_field(field: &Field, id: &str, title: &str, description: &str, value: &str, not_empty: bool) {
    assert_eq!(field.id, id);
    assert_eq!(field.title, title);
    assert_eq!(field.description, description);
    match &field.kind {
        FieldKind::Text { value: v, not_empty: n } => {
            assert_eq!(v, value);
            assert_eq!(*n, not_empty);
        }
        other => panic!("no text field: {:?}", other),
    }
}

fn check_image_field(field: &Field, path: &str) {
    assert_eq!(field.id, "image-path");
    assert_eq!(field.title, "Image");
    assert_eq!(field.description, "Select the image path");
    match &field.kind {
        FieldKind::FileSystem { path: p, not_empty, filters } => {
            assert_eq!(p, path);
            assert!(*not_empty);
            assert_eq!(filters, &vec!["png".to_string(), "webp".to_string(), "jpg".to_string(), "jpeg".to_string()]);
        }
        other => panic!("no file field: {:?}", other),
    }
}

#[test]
fn extension_id_is_clipper() {
    assert_eq!(EXTENSION_ID, "clipper");
}

#[test]
fn empty_query_on_two_clips_lists_four_entries() {
    let mut db = Database::new();
    db.add("a", "First", "one", ClipType::Text);
    db.add("b", "Second", "two", ClipType::Text);
    let results = handle_results(&db, "", &plain(""));
    assert_eq!(titles(&results), vec!["Add Text Clip", "Add Text Area Clip", "Add Image Clip", "Delete Clip"]);
}

#[test]
fn empty_query_on_an_empty_store_lists_three_entries() {
    let db = Database::new();
    let results = handle_results(&db, "", &plain(""));
    assert_eq!(titles(&results), vec!["Add Text Clip", "Add Text Area Clip", "Add Image Clip"]);
    assert_eq!(titles(&list_actions(&db)), vec!["Add Text Clip", "Add Text Area Clip", "Add Image Clip"]);
}

#[test]
fn keyword_without_text_is_an_empty_query() {
    let db = sample_store();
    let results = handle_results(&db, "todo ", &keyed("todo", ""));
    assert_eq!(titles(&results), vec!["Add Text Clip", "Add Text Area Clip", "Add Image Clip", "Delete Clip"]);
    let results = handle_results(&db, "", &keyed("e", ""));
    assert_eq!(results.len(), 4);
}

#[test]
fn text_of_a_query_without_keyword_is_the_query_as_typed() {
    let db = sample_store();
    let query = SearchQuery { keyword: None, search_text: String::new() };
    let results = handle_results(&db, "sig", &query);
    assert_eq!(titles(&results), vec!["(sig) Mail signature"]);
}

#[test]
fn add_text_entry() {
    let entry = add_entry(ClipType::Text);
    assert_eq!(entry.title, "Add Text Clip");
    assert_eq!(entry.description, "Add a text clip");
    assert_eq!(bundled(&entry), "plus");
    assert_eq!(entry.icon_color.as_deref(), Some("accent"));
    let form = form_of(&entry);
    assert_eq!(form.extension_id, "clipper");
    assert_eq!(form.form_id, "add-text-clip");
    assert_eq!(form.title, "Add Text Clip");
    assert_eq!(form.action_text, "Add Clip");
    assert!(form.args.is_empty());
    assert_eq!(form.fields.len(), 3);
    check_text_field(&form.fields[0], "keyword", "Keyword", "The keyword of the clip", "", true);
    check_text_field(&form.fields[1], "name", "Name", "The name of the clip", "", true);
    check_text_field(&form.fields[2], "clip", "Clip", "The text of the clip", "", true);
}

#[test]
fn add_text_area_entry() {
    let entry = add_entry(ClipType::TextArea);
    assert_eq!(entry.title, "Add Text Area Clip");
    assert_eq!(entry.description, "Add a text area clip");
    let form = form_of(&entry);
    assert_eq!(form.form_id, "add-text-area-clip");
    assert_eq!(form.title, "Add Text Area Clip");
    assert_eq!(form.action_text, "Add Clip");
    check_text_field(&form.fields[0], "keyword", "Keyword", "The keyword of the clip", "", true);
    check_text_field(&form.fields[1], "name", "Name", "The name of the clip", "", true);
    assert_eq!(form.fields[2].id, "clip");
    assert_eq!(form.fields[2].title, "Clip");
    assert_eq!(form.fields[2].description, "The text of the clip");
    match &form.fields[2].kind {
        FieldKind::TextArea { value, not_empty } => {
            assert_eq!(value, "");
            assert!(*not_empty);
        }
        other => panic!("no text area: {:?}", other),
    }
}

#[test]
fn add_image_entry() {
    let entry = add_entry(ClipType::Image);
    assert_eq!(entry.title, "Add Image Clip");
    assert_eq!(entry.description, "Add a image clip");
    let form = form_of(&entry);
    assert_eq!(form.form_id, "add-image-clip");
    assert_eq!(form.title, "Add Image Clip");
    check_text_field(&form.fields[0], "keyword", "Keyword", "The keyword of the clip", "", true);
    check_text_field(&form.fields[1], "name", "Name", "The name of the clip", "", false);
    check_image_field(&form.fields[2], "");
}

#[test]
fn delete_entry_offers_every_clip() {
    let db = sample_store();
    let entry = delete_entry(&db).expect("store has clips");
    assert_eq!(entry.title, "Delete Clip");
    assert_eq!(entry.description, "Delete a clip");
    assert_eq!(bundled(&entry), "trash");
    assert_eq!(entry.icon_color.as_deref(), Some("accent"));
    let form = form_of(&entry);
    assert_eq!(form.extension_id, "clipper");
    assert_eq!(form.form_id, "delete-clip");
    assert_eq!(form.title, "Delete Clip");
    assert_eq!(form.action_text, "Delete");
    assert!(form.args.is_empty());
    assert_eq!(form.fields.len(), 1);
    let field = &form.fields[0];
    assert_eq!(field.id, "clip");
    assert_eq!(field.title, "Clip");
    assert_eq!(field.description, "Select the clip you wish to delete");
    match &field.kind {
        FieldKind::Select { default_value, values } => {
            assert_eq!(default_value, "0");
            let pairs: Vec<(String, String)> = values.iter().map(|v| (v.id.clone(), v.text.clone())).collect();
            assert_eq!(
                pairs,
                vec![
                    ("0".to_string(), "Shopping list for the week".to_string()),
                    ("2".to_string(), "Mail signature".to_string()),
                    ("5".to_string(), "Company logo".to_string()),
                ]
            );
        }
        other => panic!("no select field: {:?}", other),
    }
}

#[test]
fn delete_entry_defaults_to_the_first_clip() {
    let mut db = Database::new();
    db.add_clip(clip(17, "k", "Seventeen", "c", ClipType::Text));
    db.add_clip(clip(3, "k", "Three", "c", ClipType::Text));
    let entry = delete_entry(&db).expect("store has clips");
    match &form_of(&entry).fields[0].kind {
        FieldKind::Select { default_value, values } => {
            assert_eq!(default_value, "17");
            assert_eq!(values.len(), 2);
        }
        other => panic!("no select field: {:?}", other),
    }
}

#[test]
fn delete_entry_needs_a_clip() {
    assert!(delete_entry(&Database::new()).is_none());
}

#[test]
fn edit_entry_of_a_text_clip() {
    let c = clip(12, "sig", "Mail signature", "Regards, {%0}", ClipType::Text);
    let entry = edit_entry(&c);
    assert_eq!(entry.title, "Edit Mail signature");
    assert_eq!(entry.description, "Edit the clip content");
    assert_eq!(bundled(&entry), "pencil");
    assert_eq!(entry.icon_color.as_deref(), Some("accent"));
    let form = form_of(&entry);
    assert_eq!(form.extension_id, "clipper");
    assert_eq!(form.form_id, "edit-clip");
    assert_eq!(form.title, "Edit Clip");
    assert_eq!(form.action_text, "Save");
    assert_eq!(form.args, vec!["12".to_string(), "Text".to_string()]);
    assert_eq!(form.fields.len(), 3);
    check_text_field(&form.fields[0], "keyword", "Keyword", "The clip keyword", "sig", false);
    check_text_field(&form.fields[1], "name", "Name", "The clip name", "Mail signature", false);
    assert_eq!(form.fields[2].id, "clip");
    assert_eq!(form.fields[2].title, "Clip");
    assert_eq!(form.fields[2].description, "The text of the clip");
    match &form.fields[2].kind {
        FieldKind::TextArea { value, not_empty } => {
            assert_eq!(value, "Regards, {%0}");
            assert!(*not_empty);
        }
        other => panic!("no text area: {:?}", other),
    }
}

#[test]
fn edit_entry_of_an_image_clip() {
    let c = clip(5, "logo", "Company logo", "/home/me/logo.png", ClipType::Image);
    let entry = edit_entry(&c);
    let form = form_of(&entry);
    assert_eq!(form.args, vec!["5".to_string(), "Image".to_string()]);
    check_image_field(&form.fields[2], "/home/me/logo.png");
    let c = clip(6, "a", "b", "x", ClipType::TextArea);
    assert_eq!(form_of(&edit_entry(&c)).args, vec!["6".to_string(), "TextArea".to_string()]);
}

#[test]
fn copy_entry_of_a_text_clip_expands_the_content() {
    let c = clip(0, "greet", "Greeting", "Hello {%0}, today is {%1}. Query: {%s}", ClipType::Text);
    let entry = copy_entry(&c, "Alice Monday");
    assert_eq!(entry.title, "(greet) Greeting");
    assert_eq!(entry.description, "Hello Alice, today is Monday. Query: Alice Monday");
    assert_eq!(bundled(&entry), "copy");
    assert_eq!(entry.icon_color.as_deref(), Some("accent"));
    match &entry.action {
        ResultAction::CopyText(text) => assert_eq!(text, "Hello Alice, today is Monday. Query: Alice Monday"),
        other => panic!("no copy of text: {:?}", other),
    }
    let c = clip(1, "k", "Area", "{%3}|{%s}", ClipType::TextArea);
    let entry = copy_entry(&c, "one two");
    assert_eq!(entry.description, "{%3}|one two");
    assert!(matches!(&entry.action, ResultAction::CopyText(t) if t == "{%3}|one two"));
}

#[test]
fn copy_entry_of_an_image_clip_keeps_the_path() {
    let c = clip(5, "logo", "Company logo", "/home/{%0}/{%s}.png", ClipType::Image);
    let entry = copy_entry(&c, "me logo");
    assert_eq!(entry.title, "(logo) Company logo");
    assert_eq!(entry.description, "Copy image");
    assert!(entry.icon_color.is_none());
    assert!(matches!(&entry.icon, Icon::File(p) if p == "/home/{%0}/{%s}.png"));
    assert!(matches!(&entry.action, ResultAction::CopyImage(p) if p == "/home/{%0}/{%s}.png"));
}

#[test]
fn edit_keywords() {
    assert!(is_edit_keyword(&Some("e".to_string())));
    assert!(is_edit_keyword(&Some("edit".to_string())));
    assert!(!is_edit_keyword(&Some("E".to_string())));
    assert!(!is_edit_keyword(&Some("ed".to_string())));
    assert!(!is_edit_keyword(&Some("".to_string())));
    assert!(!is_edit_keyword(&None));
}

#[test]
fn selection_by_name_or_exact_keyword() {
    let c = clip(0, "todo", "Shopping", "c", ClipType::Text);
    assert!(selects(&c, &Some("todo".to_string()), "zzz", false));
    assert!(selects(&c, &Some("other".to_string()), "zzz", true));
    assert!(!selects(&c, &Some("other".to_string()), "todo", false));
    assert!(!selects(&c, &Some("Todo".to_string()), "zzz", false));
    assert!(!selects(&c, &Some("tod".to_string()), "zzz", false));
    assert!(selects(&c, &None, "todo", false));
    assert!(!selects(&c, &None, "TODO", false));
    assert!(!selects(&c, &None, "todo ", false));
    assert!(selects(&c, &None, "whatever", true));
}

#[test]
fn exact_keyword_match() {
    let db = sample_store();
    assert!(!clipper::fuzzy::matches("Shopping list for the week", "zzzzqqqqxxxx"));
    let results = handle_results(&db, "todo zzzzqqqqxxxx", &keyed("todo", "zzzzqqqqxxxx"));
    assert_eq!(titles(&results), vec!["(todo) Shopping list for the week"]);
    assert_eq!(results[0].description, "buy zzzzqqqqxxxx and {%1}; all: zzzzqqqqxxxx");
}

#[test]
fn keyword_of_a_query_without_keyword_is_its_text() {
    let mut db = Database::new();
    db.add("quarterly-figures", "Logo", "/home/me/logo.png", ClipType::Image);
    db.add("completely-different", "Banner", "/home/me/banner.png", ClipType::Image);
    assert!(!clipper::fuzzy::matches("Logo", "quarterly-figures"));
    assert!(!clipper::fuzzy::matches("Banner", "quarterly-figures"));
    let results = handle_results(&db, "quarterly-figures", &plain("quarterly-figures"));
    assert_eq!(titles(&results), vec!["(quarterly-figures) Logo"]);
    assert!(matches!(&results[0].action, ResultAction::CopyImage(p) if p == "/home/me/logo.png"));
}

#[test]
fn name_match_selects_in_store_order() {
    let mut db = Database::new();
    db.add("a", "Alpha report", "first {%s}", ClipType::Text);
    db.add("b", "Unrelated thing", "second", ClipType::Text);
    db.add("c", "alpha report", "third", ClipType::TextArea);
    let results = handle_results(&db, "alpha report", &plain("alpha report"));
    assert_eq!(titles(&results), vec!["(a) Alpha report", "(c) alpha report"]);
    assert_eq!(results[0].description, "first alpha report");
}

#[test]
fn nothing_selected_gives_no_entries() {
    let db = sample_store();
    assert!(handle_results(&db, "zzzzqqqqxxxx", &plain("zzzzqqqqxxxx")).is_empty());
    assert!(handle_results(&Database::new(), "todo", &plain("todo")).is_empty());
}

#[test]
fn edit_entries_come_before_copy_entries() {
    let db = sample_store();
    let results = handle_results(&db, "e Mail signature", &keyed("e", "Mail signature"));
    assert_eq!(titles(&results), vec!["Edit Mail signature", "(sig) Mail signature"]);
    assert_eq!(form_of(&results[0]).args, vec!["2".to_string(), "TextArea".to_string()]);
    match &form_of(&results[0]).fields[2].kind {
        FieldKind::TextArea { value, .. } => assert_eq!(value, "Kind regards,\n{%s}"),
        other => panic!("no text area: {:?}", other),
    }
    assert_eq!(results[1].description, "Kind regards,\nMail signature");
    let results = handle_results(&db, "edit Mail signature", &keyed("edit", "Mail signature"));
    assert_eq!(titles(&results), vec!["Edit Mail signature", "(sig) Mail signature"]);
}

#[test]
fn edit_matches_the_keyword_fuzzily() {
    let mut db = Database::new();
    db.add("quarterly-figures", "Logo", "/home/me/logo.png", ClipType::Image);
    db.add("completely-different", "Banner", "some text", ClipType::Text);
    assert!(!clipper::fuzzy::matches("Logo", "Quarterly-Figures"));
    assert!(clipper::fuzzy::matches("quarterly-figures", "Quarterly-Figures"));
    assert!(!clipper::fuzzy::matches("Banner", "Quarterly-Figures"));
    assert!(!clipper::fuzzy::matches("completely-different", "Quarterly-Figures"));
    let results = handle_results(&db, "e Quarterly-Figures", &keyed("e", "Quarterly-Figures"));
    assert_eq!(titles(&results), vec!["Edit Logo"]);
    check_image_field(&form_of(&results[0]).fields[2], "/home/me/logo.png");
}

#[test]
fn other_keywords_give_no_edit_entries() {
    let db = sample_store();
    let results = handle_results(&db, "x Mail signature", &keyed("x", "Mail signature"));
    assert_eq!(titles(&results), vec!["(sig) Mail signature"]);
}

#[test]
fn delete_then_match() {
    let mut db = sample_store();
    let before = handle_results(&db, "sig", &plain("sig"));
    assert_eq!(titles(&before), vec!["(sig) Mail signature"]);
    db.remove(2);
    assert!(handle_results(&db, "sig", &plain("sig")).is_empty());
    assert!(handle_results(&db, "x Mail signature", &keyed("x", "Mail signature")).is_empty());
    assert!(handle_results(&db, "e Mail signature", &keyed("e", "Mail signature")).is_empty());
    let listing = handle_results(&db, "", &plain(""));
    match &form_of(&listing[3]).fields[0].kind {
        FieldKind::Select { values, .. } => {
            let ids: Vec<String> = values.iter().map(|v| v.id.clone()).collect();
            assert_eq!(ids, vec!["0".to_string(), "5".to_string()]);
        }
        other => panic!("no select field: {:?}", other),
    }
    let ids: Vec<usize> = db.clips.iter().map(|c| c.id).collect();
    assert_eq!(ids, vec![0, 5]);
    assert_eq!(db.add("new", "New clip", "x", ClipType::Text).id, 6);
}
