use rune_query::docs::ApiStructure;

fn leaf(name: &str) -> ApiStructure {
    ApiStructure { name: name.to_string(), children: Vec::new() }
}

#[test]
fn outline_has_one_heading_per_node() {
    let tree = ApiStructure {
        name: "std".to_string(),
        children: vec![
            ApiStructure { name: "io".to_string(), children: vec![leaf("print")] },
            leaf("fmt"),
        ],
    };
    assert_eq!(tree.to_asciidoc(1), "* std\n** io\n*** print\n** fmt\n");
}

#[test]
fn outline_of_a_leaf_at_level_zero() {
    assert_eq!(leaf("x").to_asciidoc(0), " x\n");
    assert_eq!(leaf("").to_asciidoc(2), "** \n");
}

#[test]
fn filing_paths_descends_only_into_existing_nodes() {
    let path = |s: &str| s.split("::").map(str::to_string).collect::<Vec<String>>();
    let mut nodes: Vec<ApiStructure> = Vec::new();
    rune_query::docs::insert_path(&mut nodes, &path("std::io::print"));
    // A segment that is not found is added at the current level, and the rest stays there.
    let names: Vec<&str> = nodes.iter().map(|n| n.name.as_str()).collect();
    assert_eq!(names, vec!["std", "io", "print"]);
    rune_query::docs::insert_path(&mut nodes, &path("std::fmt"));
    assert_eq!(nodes.len(), 3);
    assert_eq!(nodes[0].children.len(), 1);
    assert_eq!(nodes[0].children[0].name, "fmt");
    rune_query::docs::insert_path(&mut nodes, &path("std::fmt::write"));
    assert_eq!(nodes[0].children[0].children[0].name, "write");
    let doc: String = nodes.iter().map(|n| n.to_asciidoc(1)).collect();
    assert_eq!(doc, "* std\n** fmt\n*** write\n* io\n* print\n");
}
