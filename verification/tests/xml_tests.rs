use dhara_tool::xml::{get_attribute, parse_document, XmlNode};

#[test]
fn parsed_attributes_come_in_ascending_name_order() {
    let text = r#"<Project Sdk="Microsoft.NET.Sdk" ToolsVersion="15" Adapter="x"><PropertyGroup Label="a" Condition="b" /></Project>"#;
    let first = parse_document(text).expect("well-formed document");
    let names: Vec<&str> = first.attributes.iter().map(|(k, _)| k.as_str()).collect();
    assert_eq!(names, vec!["Adapter", "Sdk", "ToolsVersion"]);
    assert_eq!(get_attribute(&first, "Sdk").as_deref(), Some("Microsoft.NET.Sdk"));
    match &first.children[0] {
        XmlNode::Element(group) => {
            let inner: Vec<&str> = group.attributes.iter().map(|(k, _)| k.as_str()).collect();
            assert_eq!(inner, vec!["Condition", "Label"]);
        }
        other => panic!("unexpected node {:?}", other),
    }
    for _ in 0..8 {
        let again = parse_document(text).expect("well-formed document");
        assert_eq!(again.attributes, first.attributes);
    }
}

#[test]
fn malformed_document_is_refused() {
    assert!(parse_document("<Project><PropertyGroup></Project>").is_none());
}
