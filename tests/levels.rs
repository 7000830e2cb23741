use darwin_v7::json::{Scalar, Value};
use darwin_v7::levels::{ImageLevel, LevelFault, LevelField, Levels, LevelsError, TileCount};

fn scalar_of(v: &serde_json::Value) -> Option<Scalar> {
    match v {
        serde_json::Value::Null => Some(Scalar::Null),
        serde_json::Value::Bool(b) => Some(Scalar::Bool(*b)),
        serde_json::Value::Number(n) => Some(Scalar::Number(n.to_string())),
        serde_json::Value::String(s) => Some(Scalar::Text(s.clone())),
        _ => None,
    }
}

fn value_of(v: &serde_json::Value) -> Value {
    match v {
        serde_json::Value::Object(m) => {
            let fields: Option<Vec<(String, Scalar)>> =
                m.iter().map(|(k, v)| scalar_of(v).map(|s| (k.clone(), s))).collect();
            fields.map(Value::Object).unwrap_or(Value::Nested)
        }
        serde_json::Value::Array(_) => Value::Nested,
        other => Value::Scalar(scalar_of(other).unwrap()),
    }
}

fn members_of(text: &str) -> Vec<(String, Value)> {
    let v: serde_json::Value = serde_json::from_str(text).unwrap();
    v.as_object().unwrap().iter().map(|(k, v)| (k.clone(), value_of(v))).collect()
}

fn json_scalar(s: &Scalar) -> serde_json::Value {
    match s {
        Scalar::Null => serde_json::Value::Null,
        Scalar::Bool(b) => serde_json::Value::Bool(*b),
        Scalar::Number(n) => serde_json::Value::Number(n.parse().unwrap()),
        Scalar::Text(t) => serde_json::Value::String(t.clone()),
    }
}

fn text_of(members: &[(String, Value)]) -> String {
    let mut out = String::from("{");
    for (i, (k, v)) in members.iter().enumerate() {
        if i > 0 {
            out.push(',');
        }
        out.push_str(&serde_json::to_string(k).unwrap());
        out.push(':');
        match v {
            Value::Scalar(s) => out.push_str(&serde_json::to_string(&json_scalar(s)).unwrap()),
            Value::Object(fs) => {
                out.push('{');
                for (j, (n, s)) in fs.iter().enumerate() {
                    if j > 0 {
                        out.push(',');
                    }
                    out.push_str(&serde_json::to_string(n).unwrap());
                    out.push(':');
                    out.push_str(&serde_json::to_string(&json_scalar(s)).unwrap());
                }
                out.push('}');
            }
            Value::Nested => panic!("nothing nested is written"),
        }
    }
    out.push('}');
    out
}

fn level(format: &str, ratio: u16, x: TileCount, y: TileCount) -> ImageLevel {
    ImageLevel {
        format: format.to_string(),
        pixel_ratio: ratio,
        tile_height: 2048,
        tile_width: 2048,
        x_tiles: x,
        y_tiles: y,
    }
}

fn count(n: &str) -> TileCount {
    TileCount::Count(n.to_string())
}

#[test]
fn test_image_level_ser_deser() {
    let contents = r#"
        {
            "0": {
                "format": "png",
                "pixel_ratio": 1,
                "tile_height": 2048,
                "tile_width": 2048,
                "x_tiles": 82.0,
                "y_tiles": 22.0
            },
            "base_key": "some-base-key.jpg"
        }"#;

    let image_level = Levels::decode(&members_of(contents)).unwrap();

    assert_eq!(image_level.base_key, Some("some-base-key.jpg".to_string()));
    assert_eq!(image_level.get(0).unwrap().format, "png".to_string());

    let image_level_deser = text_of(&image_level.encode());

    assert_eq!(&image_level_deser, &contents.replace(['\n', ' '], ""));
}

#[test]
fn test_image_level_ser_deser_error() {
    let contents = r#"
        {
            "an-image": {
                "format": "png",
                "pixel_ratio": 1,
                "tile_height": 2048,
                "tile_width": 2048,
                "x_tiles": 82.0,
                "y_tiles": 22.0
            },
            "base_key": "some-base-key.jpg"
        }"#;
    assert_eq!(
        Levels::decode(&members_of(contents)),
        Err(LevelsError::InvalidKey("an-image".to_string()))
    );

    assert_eq!(
        Levels::decode(&members_of(r#"{"key": "value"}"#)),
        Err(LevelsError::InvalidKey("key".to_string()))
    );
}

#[test]
fn levels_round_trip_through_members() {
    let levels = Levels {
        image_levels: vec![
            (0, level("png", 1, count("79"), count("44"))),
            (3, level("jpeg", 8, count("10.5"), TileCount::NotANumber)),
            (12, level("png", 65535, TileCount::NotANumber, count("1"))),
        ],
        base_key: Some("images/key/".to_string()),
    };
    assert_eq!(Levels::decode(&levels.encode()), Ok(levels.clone()));
    let no_key = Levels { base_key: None, ..levels };
    assert_eq!(Levels::decode(&no_key.encode()), Ok(no_key));
}

#[test]
fn encoded_levels_are_written_by_index_then_base_key() {
    let levels = Levels {
        image_levels: vec![(2, level("png", 4, count("20"), count("11"))), (10, level("png", 1, count("1"), count("1")))],
        base_key: Some("k".to_string()),
    };
    let keys: Vec<String> = levels.encode().into_iter().map(|(k, _)| k).collect();
    assert_eq!(keys, vec!["2", "10", "base_key"]);
    let empty = Levels { image_levels: vec![], base_key: None };
    assert!(empty.encode().is_empty());
    assert_eq!(Levels::decode(&[].to_vec()), Ok(empty));
}

#[test]
fn decoded_levels_are_sorted_and_later_duplicates_win() {
    let rec = |ratio: &str| {
        Value::Object(vec![
            ("format".to_string(), Scalar::Text("png".to_string())),
            ("pixel_ratio".to_string(), Scalar::Number(ratio.to_string())),
            ("tile_height".to_string(), Scalar::Number("2048".to_string())),
            ("tile_width".to_string(), Scalar::Number("2048".to_string())),
            ("x_tiles".to_string(), Scalar::Number("3".to_string())),
            ("y_tiles".to_string(), Scalar::Null),
        ])
    };
    let members = vec![
        ("7".to_string(), rec("128")),
        ("1".to_string(), rec("2")),
        ("7".to_string(), rec("64")),
    ];
    let levels = Levels::decode(&members).unwrap();
    let indices: Vec<u32> = levels.image_levels.iter().map(|(k, _)| *k).collect();
    assert_eq!(indices, vec![1, 7]);
    assert_eq!(levels.get(7).unwrap().pixel_ratio, 64);
    assert_eq!(levels.get(7).unwrap().y_tiles, TileCount::NotANumber);
    assert_eq!(levels.base_key, None);
    assert!(levels.get(3).is_none());
}

#[test]
fn malformed_levels_name_the_fault() {
    let with_ratio = |ratio: Scalar| {
        vec![(
            "0".to_string(),
            Value::Object(vec![
                ("format".to_string(), Scalar::Text("png".to_string())),
                ("pixel_ratio".to_string(), ratio),
                ("tile_height".to_string(), Scalar::Number("1".to_string())),
                ("tile_width".to_string(), Scalar::Number("1".to_string())),
                ("x_tiles".to_string(), Scalar::Number("1".to_string())),
                ("y_tiles".to_string(), Scalar::Number("1".to_string())),
            ]),
        )]
    };
    assert_eq!(
        Levels::decode(&with_ratio(Scalar::Number("65536".to_string()))),
        Err(LevelsError::InvalidLevel("0".to_string(), LevelFault::WrongType(LevelField::PixelRatio)))
    );
    assert_eq!(
        Levels::decode(&with_ratio(Scalar::Number("1.5".to_string()))),
        Err(LevelsError::InvalidLevel("0".to_string(), LevelFault::WrongType(LevelField::PixelRatio)))
    );
    assert!(Levels::decode(&with_ratio(Scalar::Number("65535".to_string()))).is_ok());
    assert_eq!(
        Levels::decode(&members_of(r#"{"0": {"format": "png"}}"#)),
        Err(LevelsError::InvalidLevel("0".to_string(), LevelFault::Missing(LevelField::PixelRatio)))
    );
    assert_eq!(
        Levels::decode(&members_of(r#"{"0": "png"}"#)),
        Err(LevelsError::InvalidLevel("0".to_string(), LevelFault::NotAnObject))
    );
    assert_eq!(
        Levels::decode(&members_of(r#"{"base_key": 5}"#)),
        Err(LevelsError::InvalidBaseKey)
    );
    let twice = vec![(
        "4".to_string(),
        Value::Object(vec![
            ("format".to_string(), Scalar::Text("png".to_string())),
            ("format".to_string(), Scalar::Text("jpeg".to_string())),
        ]),
    )];
    assert_eq!(
        Levels::decode(&twice),
        Err(LevelsError::InvalidLevel("4".to_string(), LevelFault::Duplicate(LevelField::Format)))
    );
    assert_eq!(
        Levels::decode(&members_of(r#"{"4294967296": {}}"#)),
        Err(LevelsError::InvalidKey("4294967296".to_string()))
    );
}

#[test]
fn a_bad_key_after_a_bad_level_reports_the_level() {
    let members = vec![
        ("0".to_string(), Value::Nested),
        ("an-image".to_string(), Value::Nested),
    ];
    assert_eq!(
        Levels::decode(&members),
        Err(LevelsError::InvalidLevel("0".to_string(), LevelFault::NotAnObject))
    );
}

#[test]
fn unknown_level_fields_are_passed_over() {
    let levels = Levels::decode(&members_of(
        r#"{"1": {"format": "png", "pixel_ratio": 2, "tile_height": 1, "tile_width": 1, "x_tiles": 40, "y_tiles": null, "extra": true}}"#,
    ))
    .unwrap();
    assert_eq!(levels.get(1).unwrap().x_tiles, count("40"));
    assert_eq!(levels.get(1).unwrap().y_tiles, TileCount::NotANumber);
}
