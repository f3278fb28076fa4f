use gpu_setfan::interface::gpus_to_string;

#[test]
fn no_gpus_gives_empty_string() {
    assert_eq!(gpus_to_string(&[]), "");
}

#[test]
fn one_gpu_is_quoted() {
    assert_eq!(
        gpus_to_string(&["NVIDIA GeForce RTX 3080".to_string()]),
        "'NVIDIA GeForce RTX 3080'"
    );
}

#[test]
fn several_gpus_are_comma_separated_in_order() {
    let names = vec!["A".to_string(), "B b".to_string(), "".to_string()];
    assert_eq!(gpus_to_string(&names), "'A', 'B b', ''");
}
