use bitnob_demo::hello_world;

#[test]
fn test_hello_world() {
    let result = hello_world();
    assert_eq!(result, "Bitnob API Demo in Rust!");
}
