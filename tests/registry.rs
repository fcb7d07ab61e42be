use mcp_client_rs::protocol_manager::{filter_tools_by_name, format_tools_for_prompt};
use mcp_client_rs::{Json, ProtocolManager, Tool};

fn tool(name: &str, description: &str) -> Tool {
    Tool { name: name.to_string(), description: description.to_string(), input_schema: Json::Null }
}

#[test]
fn filter_keeps_named_tools_in_order() {
    let tools = vec![tool("a", "1"), tool("b", "2"), tool("c", "3")];
    let names = vec!["c".to_string(), "a".to_string(), "z".to_string()];
    let kept = filter_tools_by_name(tools, &names);
    let kept_names: Vec<&str> = kept.iter().map(|t| t.name.as_str()).collect();
    assert_eq!(kept_names, vec!["a", "c"]);
}

#[test]
fn format_numbers_from_the_start() {
    let a = tool("search", "finds things");
    let b = tool("read", "reads a file");
    assert_eq!(
        format_tools_for_prompt(&[&a, &b], &9),
        "9. search: finds things\n10. read: reads a file\n"
    );
    assert_eq!(format_tools_for_prompt(&[], &1), "");
}

#[test]
fn registry_numbers_do_not_overlap() {
    let mut manager: ProtocolManager<u32> = ProtocolManager::new();
    manager.add_protocol(
        "github",
        10,
        vec![tool("search", "s"), tool("get_file", "g"), tool("fork", "f")],
        Some(vec!["search".to_string(), "get_file".to_string()]),
    );
    manager.add_protocol("fs", 20, vec![tool("ls", "list")], None);
    assert_eq!(manager.tool_counter, 4);
    assert_eq!(manager.formatted_tools, vec!["1. search: s\n2. get_file: g\n", "3. ls: list\n"]);
    assert_eq!(
        manager.get_tools_for_clients(None),
        "1. search: s\n2. get_file: g\n3. ls: list\n"
    );
    let only_fs = vec!["fs".to_string()];
    assert_eq!(manager.get_tools_for_clients(Some(&only_fs)), "1. ls: list\n");
    let order = vec!["fs".to_string(), "nope".to_string(), "github".to_string()];
    let picked: Vec<&str> =
        manager.get_tool_structs(Some(&order)).iter().map(|t| t.name.as_str()).collect();
    assert_eq!(picked, vec!["ls", "search", "get_file"]);
    assert_eq!(manager.get_protocols(None), vec![&10, &20]);
    assert_eq!(manager.get_protocols(Some(&only_fs)), vec![&20]);
    let none: Vec<String> = vec![];
    assert!(manager.get_protocols(Some(&none)).is_empty());
}

#[test]
fn registry_replaces_tools_under_a_key() {
    let mut manager: ProtocolManager<u8> = ProtocolManager::new();
    manager.add_protocol("k", 1, vec![tool("a", "x")], None);
    manager.add_protocol("k", 2, vec![tool("b", "y")], None);
    assert_eq!(manager.client_tools.len(), 1);
    assert_eq!(manager.get_tools_for_clients(None), "1. b: y\n");
    assert_eq!(manager.formatted_tools[1], "2. b: y\n");
    assert_eq!(manager.clients.len(), 2);
}
