use patina::mermaid::MermaidRenderer;

#[test]
fn test_detect_flowchart() {
    let renderer = MermaidRenderer::new();
    let mermaid = "graph TD\n    A --> B";
    let result = renderer.render(mermaid);
    assert!(result.is_ok());
}

#[test]
fn test_detect_pie() {
    let renderer = MermaidRenderer::new();
    let mermaid = "pie\n    title Test\n    \"A\": 50\n    \"B\": 50";
    let result = renderer.render(mermaid);
    assert!(result.is_ok());
}
