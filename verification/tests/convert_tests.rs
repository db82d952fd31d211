use bevy_uix::chars::{collapse_into, space};
use bevy_uix::convert::{
    convert_bool, convert_color, convert_flex_direction, convert_flex_wrap, convert_number,
    convert_val,
};
use bevy_uix::error::ParseError;
use bevy_uix::number::Number;
use bevy_uix::style::{Color, FlexDirection, FlexWrap, Val};

fn num(text: &str) -> Number {
    Number { text: text.to_string() }
}

fn message_of<T: std::fmt::Debug>(res: Result<T, ParseError>) -> String {
    match res {
        Err(ParseError::InvalidFormat(m)) => m,
        other => panic!("expected an invalid-format error, got {:?}", other),
    }
}

#[test]
fn dimension_with_each_unit() {
    assert_eq!(convert_val("50%").unwrap(), Val::Percent(num("50")));
    assert_eq!(convert_val("10px").unwrap(), Val::Px(num("10")));
    assert_eq!(convert_val("3vmin").unwrap(), Val::VMin(num("3")));
    assert_eq!(convert_val("3vmax").unwrap(), Val::VMax(num("3")));
    assert_eq!(convert_val("3vh").unwrap(), Val::Vh(num("3")));
    assert_eq!(convert_val("3vw").unwrap(), Val::Vw(num("3")));
    assert_eq!(convert_val("auto").unwrap(), Val::Auto);
    assert_eq!(convert_val("12").unwrap(), Val::Px(num("12")));
    assert_eq!(convert_val("-1.5e2px").unwrap(), Val::Px(num("-1.5e2")));
}

#[test]
fn dimension_numbers_read_as_single_precision() {
    let v = convert_val("50%").unwrap();
    match v {
        Val::Percent(n) => assert_eq!(n.text.parse::<f32>().unwrap(), 50.0f32),
        other => panic!("unexpected {:?}", other),
    }
    let v = convert_val("0.25vw").unwrap();
    match v {
        Val::Vw(n) => assert_eq!(n.text.parse::<f32>().unwrap(), 0.25f32),
        other => panic!("unexpected {:?}", other),
    }
}

#[test]
fn dimension_rejects_bad_text() {
    assert_eq!(message_of(convert_val("abc")), "Invalid pixel value: abc");
    assert_eq!(message_of(convert_val("%")), "Invalid percentage value: %");
    assert_eq!(message_of(convert_val("10pxx")), "Invalid pixel value: 10pxx");
    assert_eq!(message_of(convert_val("xpx")), "Invalid pixel value: xpx");
    assert_eq!(message_of(convert_val("vmin")), "Invalid percentage value: vmin");
    assert_eq!(message_of(convert_val("1 vmax")), "Invalid percentage value: 1 vmax");
    assert_eq!(message_of(convert_val("vh")), "Invalid percentage value: vh");
    assert_eq!(message_of(convert_val("-vw")), "Invalid percentage value: -vw");
    assert_eq!(message_of(convert_val("")), "Invalid pixel value: ");
    assert_eq!(message_of(convert_val("Auto")), "Invalid pixel value: Auto");
}

#[test]
fn number_agrees_with_the_standard_parse() {
    let samples = [
        "", "0", "1", "-1", "+1", "1.", ".5", ".", "+", "-", "1.5", "1e5", "1E5", "1e", "e5",
        "1e+5", "1e-5", "1e+", "1.e5", ".5e1", ".e1", "1.5.2", "1 ", " 1", "1_0", "0x10", "inf",
        "INF", "Infinity", "infinit", "-inf", "+infinity", "nan", "NaN", "-nan", "nanx", "in",
        "1f", "١", "1e5e5", "--1", "+-1", "00012", "3.4028236e38", "1e-400", "12345678901234567890",
        "1,5", "1.5f32", "infinityy", "i", "Ｎａｎ",
    ];
    for s in samples {
        let ours = convert_number(s);
        let theirs = s.parse::<f32>();
        assert_eq!(ours.is_ok(), theirs.is_ok(), "on {:?}", s);
        if let Ok(n) = ours {
            assert_eq!(n.text, s);
        }
    }
    assert_eq!(message_of(convert_number("abc")), "Invalid float value: abc");
}

#[test]
fn color_six_and_eight_digits() {
    assert_eq!(
        convert_color("#112233").unwrap(),
        Color { red: 0x11, green: 0x22, blue: 0x33, alpha: 255 }
    );
    assert_eq!(
        convert_color("#ff0000").unwrap(),
        Color { red: 255, green: 0, blue: 0, alpha: 255 }
    );
    assert_eq!(
        convert_color("#AbCdEf80").unwrap(),
        Color { red: 0xab, green: 0xcd, blue: 0xef, alpha: 0x80 }
    );
    assert_eq!(
        convert_color("#00000000").unwrap(),
        Color { red: 0, green: 0, blue: 0, alpha: 0 }
    );
}

#[test]
fn color_rejects_other_lengths_and_digits() {
    assert_eq!(message_of(convert_color("112233")), "Invalid color format: 112233");
    assert_eq!(message_of(convert_color("#12345")), "Invalid color format: #12345");
    assert_eq!(message_of(convert_color("#1234567")), "Invalid color format: #1234567");
    assert_eq!(message_of(convert_color("#")), "Invalid color format: #");
    assert_eq!(message_of(convert_color("")), "Invalid color format: ");
    assert_eq!(message_of(convert_color("#gg0000")), "Invalid color: #gg0000");
    assert_eq!(message_of(convert_color("#0000000g")), "Invalid color: #0000000g");
    assert_eq!(message_of(convert_color("#+f+f+f")), "Invalid color: #+f+f+f");
}

#[test]
fn black_is_opaque() {
    assert_eq!(Color::black(), Color { red: 0, green: 0, blue: 0, alpha: 255 });
}

#[test]
fn boolean_words() {
    assert_eq!(convert_bool("true").unwrap(), true);
    assert_eq!(convert_bool("1").unwrap(), true);
    assert_eq!(convert_bool("false").unwrap(), false);
    assert_eq!(convert_bool("0").unwrap(), false);
    assert_eq!(message_of(convert_bool("yes")), "Invalid boolean value: yes");
    assert_eq!(message_of(convert_bool("True")), "Invalid boolean value: True");
    assert_eq!(message_of(convert_bool("")), "Invalid boolean value: ");
    assert_eq!(message_of(convert_bool(" true")), "Invalid boolean value:  true");
}

#[test]
fn flex_keywords() {
    assert_eq!(convert_flex_direction("row").unwrap(), FlexDirection::Row);
    assert_eq!(convert_flex_direction("column").unwrap(), FlexDirection::Column);
    assert_eq!(convert_flex_direction("row-reverse").unwrap(), FlexDirection::RowReverse);
    assert_eq!(convert_flex_direction("column-reverse").unwrap(), FlexDirection::ColumnReverse);
    assert_eq!(message_of(convert_flex_direction("up")), "Invalid flex direction: up");
    assert_eq!(convert_flex_wrap("nowrap").unwrap(), FlexWrap::NoWrap);
    assert_eq!(convert_flex_wrap("wrap").unwrap(), FlexWrap::Wrap);
    assert_eq!(convert_flex_wrap("wrap-reverse").unwrap(), FlexWrap::WrapReverse);
    assert_eq!(message_of(convert_flex_wrap("no-wrap")), "Invalid flex wrap: no-wrap");
}

#[test]
fn white_space_is_unicodes() {
    let mut code: u32 = 0;
    while code <= 0x10FFFF {
        if let Some(c) = char::from_u32(code) {
            assert_eq!(space(c), c.is_whitespace(), "on U+{:04X}", code);
        }
        code += 1;
    }
}

#[test]
fn collapse_trims_and_squeezes() {
    let mut out = String::new();
    collapse_into("  a   b\n c ", &mut out);
    assert_eq!(out, "a b c");
    collapse_into("\t\t", &mut out);
    assert_eq!(out, "a b c");
    collapse_into("x\u{a0}\u{3000}y", &mut out);
    assert_eq!(out, "a b cx y");
    let mut other = String::new();
    collapse_into("", &mut other);
    assert_eq!(other, "");
}
