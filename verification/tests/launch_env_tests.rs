use ollama_buildpack::launch_env::ollama_host_binding;

fn b(s: &str) -> Vec<u8> {
    s.as_bytes().to_vec()
}

#[test]
fn supplied_port_binds_all_interfaces_on_that_port() {
    let port = b("8080");
    assert_eq!(ollama_host_binding(Some(&port)), b("0.0.0.0:8080"));
}

#[test]
fn no_port_binds_all_interfaces_without_one() {
    assert_eq!(ollama_host_binding(None), b("0.0.0.0"));
}

#[test]
fn empty_port_keeps_the_separator() {
    let port = b("");
    assert_eq!(ollama_host_binding(Some(&port)), b("0.0.0.0:"));
}
