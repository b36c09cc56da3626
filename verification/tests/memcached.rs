use dd_sidecar::memcached::obfuscate_memcached_string;

#[test]
fn test_name() {
    for (input, expected) in [
        ("set mykey 0 60 5\r\nvalue", "set mykey 0 60 5"),
        ("get mykey", "get mykey"),
        ("add newkey 0 60 5\r\nvalue", "add newkey 0 60 5"),
        ("add newkey 0 60 5\r\nvalue\r\nvalue1", "add newkey 0 60 5"),
        ("decr mykey 5", "decr mykey 5"),
    ] {
        let result = obfuscate_memcached_string(input);
        assert_eq!(result, expected);
    }
}

#[test]
fn memcached_keeps_only_the_command_line() {
    assert_eq!(obfuscate_memcached_string(""), "");
    assert_eq!(obfuscate_memcached_string("\r\npayload"), "");
    assert_eq!(obfuscate_memcached_string("stats\r"), "stats\r");
    assert_eq!(obfuscate_memcached_string("cas k 0 0 1 7\r\nx"), "cas k 0 0 1 7");
}
