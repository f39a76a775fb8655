use garble::{Garble, Inline, Named, ZeroGarbler};

#[test]
fn test_named() {
    let input = Named { a: 1, b: 2 };
    let expected = Named { a: 0, b: 2 };

    let output = input.garble(&mut ZeroGarbler);
    assert_eq!(output, expected);
}

#[test]
fn test_inline() {
    let input = Inline(1, 2);
    let expected = Inline(0, 2);

    let output = input.garble(&mut ZeroGarbler);
    assert_eq!(output, expected);
}
