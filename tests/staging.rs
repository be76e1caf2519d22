use functor_runtime::staging::{push_decimal, ArtifactName};

#[test]
fn artifact_name_splits_stem_and_extension() {
    let name = ArtifactName::of_path("/work/target/debug/libgame.so");
    assert_eq!(name.stem, "libgame");
    assert_eq!(name.extension, ".so");
}

#[test]
fn artifact_name_without_extension() {
    let name = ArtifactName::of_path("/work/target/debug/game");
    assert_eq!(name.stem, "game");
    assert_eq!(name.extension, "");
}

#[test]
fn destination_name_joins_parts() {
    let name = ArtifactName::of_path("out/libgame.dylib");
    assert_eq!(name.destination_name(4321, 7), "libgame_4321_7.dylib");
    assert_eq!(name.destination_name(0, 10), "libgame_0_10.dylib");
}

#[test]
fn decimal_digits() {
    let mut s = String::from("n=");
    push_decimal(&mut s, 0);
    assert_eq!(s, "n=0");
    let mut t = String::new();
    push_decimal(&mut t, u64::MAX);
    assert_eq!(t, "18446744073709551615");
    let mut u = String::new();
    push_decimal(&mut u, 1009);
    assert_eq!(u, "1009");
}
