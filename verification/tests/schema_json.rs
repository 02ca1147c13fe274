use gearsfn::qna::questiondto::{
    ArrayNode, BooleanNode, FixedListNode, IntegerNode, Node, ObjectNode, StringNode,
};
use gearsfn::qna::questionlist::sample_string_questions;
use gearsfn::qna::schema_json::push_node;
use serde_json::{Number, Value};

fn text(s: &str) -> Value {
    Value::String(s.to_string())
}

fn number(i: i32) -> Value {
    Value::Number(Number::from(i))
}

fn texts(items: &[&str]) -> Value {
    Value::Array(items.iter().map(|s| text(s)).collect())
}

fn object(members: Vec<(&str, Value)>) -> Value {
    let mut map = serde_json::Map::new();
    for (key, value) in members {
        map.insert(key.to_string(), value);
    }
    Value::Object(map)
}

fn parsed(json: &str) -> Value {
    serde_json::from_str(json).unwrap()
}

#[test]
fn an_integer_node_with_every_bound() {
    let node = Node::Integer(IntegerNode {
        title: "A number".to_string(),
        description: "Some number".to_string(),
        default: Some(1),
        multiple_of: Some(10),
        minimum: Some(-5),
        maximum: Some(100),
    });
    assert_eq!(
        node.to_json(),
        "{\"type\":\"integer\",\"title\":\"A number\",\"description\":\"Some number\",\
         \"default\":1,\"multipleOf\":10,\"minimum\":-5,\"maximum\":100}"
    );
}

#[test]
fn absent_bounds_are_left_out() {
    let node = Node::Integer(IntegerNode {
        title: "n".to_string(),
        description: "d".to_string(),
        default: None,
        multiple_of: None,
        minimum: Some(0),
        maximum: None,
    });
    let json = node.to_json();
    assert_eq!(json, "{\"type\":\"integer\",\"title\":\"n\",\"description\":\"d\",\"minimum\":0}");
    assert!(!json.contains("null"));
    assert!(!json.contains("multipleOf"));
    assert!(!json.contains("maximum"));
    assert!(!json.contains("default"));
}

#[test]
fn a_string_node_without_default_has_no_default_member() {
    let node = Node::String(StringNode {
        title: "Some title 2".to_string(),
        description: "Some 2 desc".to_string(),
        default: None,
        min_length: None,
        max_length: None,
    });
    let json = node.to_json();
    assert_eq!(
        json,
        "{\"type\":\"string\",\"title\":\"Some title 2\",\"description\":\"Some 2 desc\"}"
    );
    let with = Node::String(StringNode {
        title: "t".to_string(),
        description: "d".to_string(),
        default: Some("Ice".to_string()),
        min_length: None,
        max_length: None,
    });
    assert_eq!(
        with.to_json(),
        "{\"type\":\"string\",\"title\":\"t\",\"description\":\"d\",\"default\":\"Ice\"}"
    );
}

#[test]
fn a_string_node_writes_the_bounds_on_its_length() {
    let node = |min_length, max_length| {
        Node::String(StringNode {
            title: "t".to_string(),
            description: "d".to_string(),
            default: None,
            min_length,
            max_length,
        })
    };
    assert_eq!(
        node(Some(0), Some(64)).to_json(),
        "{\"type\":\"string\",\"title\":\"t\",\"description\":\"d\",\
         \"minLength\":0,\"maxLength\":64}"
    );
    assert_eq!(
        node(Some(2), None).to_json(),
        "{\"type\":\"string\",\"title\":\"t\",\"description\":\"d\",\"minLength\":2}"
    );
    assert_eq!(
        node(None, Some(5)).to_json(),
        "{\"type\":\"string\",\"title\":\"t\",\"description\":\"d\",\"maxLength\":5}"
    );
    let bare = node(None, None).to_json();
    assert!(!bare.contains("Length"));
    assert!(!bare.contains("null"));
}

#[test]
fn a_boolean_node_writes_its_default() {
    let node = |default| {
        Node::Boolean(BooleanNode {
            title: "t".to_string(),
            description: "d".to_string(),
            default,
        })
    };
    assert_eq!(
        node(Some(true)).to_json(),
        "{\"type\":\"boolean\",\"title\":\"t\",\"description\":\"d\",\"default\":true}"
    );
    assert_eq!(
        node(Some(false)).to_json(),
        "{\"type\":\"boolean\",\"title\":\"t\",\"description\":\"d\",\"default\":false}"
    );
    assert_eq!(
        node(None).to_json(),
        "{\"type\":\"boolean\",\"title\":\"t\",\"description\":\"d\"}"
    );
}

#[test]
fn a_fixed_list_node_is_an_enumerated_string() {
    let node = Node::FixedList(FixedListNode {
        title: "Zork and or Bork?".to_string(),
        description: "Some T/f".to_string(),
        default: vec![],
        items: vec!["zork".to_string(), "bork".to_string()],
        item_names: vec!["Zork".to_string(), "Bork".to_string()],
    });
    assert_eq!(
        node.to_json(),
        "{\"type\":\"string\",\"title\":\"Zork and or Bork?\",\"description\":\"Some T/f\",\
         \"default\":[],\"enum\":[\"zork\",\"bork\"],\"enumNames\":[\"Zork\",\"Bork\"]}"
    );
}

#[test]
fn an_array_node_wraps_its_items() {
    let node = Node::Array(ArrayNode {
        title: "outer".to_string(),
        description: "o".to_string(),
        items: Box::new(Node::Array(ArrayNode {
            title: "inner".to_string(),
            description: "i".to_string(),
            items: Box::new(Node::Boolean(BooleanNode {
                title: "t".to_string(),
                description: "d".to_string(),
                default: None,
            })),
        })),
    });
    assert_eq!(
        node.to_json(),
        "{\"type\":\"array\",\"title\":\"outer\",\"description\":\"o\",\"items\":\
         {\"type\":\"array\",\"title\":\"inner\",\"description\":\"i\",\"items\":\
         {\"type\":\"boolean\",\"title\":\"t\",\"description\":\"d\"}}}"
    );
}

fn small_document() -> ObjectNode {
    ObjectNode {
        title: "Zork".to_string(),
        description: "desc".to_string(),
        properties: vec![
            (
                "1".to_string(),
                Node::String(StringNode {
                    title: "food".to_string(),
                    description: "f".to_string(),
                    default: None,
                    min_length: None,
                    max_length: None,
                }),
            ),
            (
                "222".to_string(),
                Node::Boolean(BooleanNode {
                    title: "tf".to_string(),
                    description: "b".to_string(),
                    default: Some(false),
                }),
            ),
        ],
        additional_properties: false,
        required: vec!["1".to_string(), "222".to_string()],
    }
}

#[test]
fn an_object_node_lists_properties_and_required() {
    let expected = "{\"type\":\"object\",\"title\":\"Zork\",\"description\":\"desc\",\
         \"properties\":{\"1\":{\"type\":\"string\",\"title\":\"food\",\"description\":\"f\"},\
         \"222\":{\"type\":\"boolean\",\"title\":\"tf\",\"description\":\"b\",\"default\":false}},\
         \"additionalProperties\":false,\"required\":[\"1\",\"222\"]}";
    assert_eq!(small_document().to_json(), expected);
    assert_eq!(Node::Object(small_document()).to_json(), expected);
}

#[test]
fn an_object_node_without_properties() {
    let node = ObjectNode {
        title: "".to_string(),
        description: "".to_string(),
        properties: vec![],
        additional_properties: true,
        required: vec![],
    };
    assert_eq!(
        node.to_json(),
        "{\"type\":\"object\",\"title\":\"\",\"description\":\"\",\"properties\":{},\
         \"additionalProperties\":true,\"required\":[]}"
    );
}

#[test]
fn an_object_nested_in_an_object() {
    let mut outer = small_document();
    outer.properties.push(("3".to_string(), Node::Object(small_document())));
    let value = parsed(&outer.to_json());
    assert_eq!(value["properties"]["3"], parsed(&small_document().to_json()));
    assert_eq!(value["properties"]["3"]["properties"]["222"]["default"], Value::Bool(false));
}

#[test]
fn push_node_appends_to_what_is_there() {
    let mut out = "schema: ".to_string();
    push_node(
        &mut out,
        &Node::Boolean(BooleanNode {
            title: "t".to_string(),
            description: "d".to_string(),
            default: None,
        }),
    );
    assert_eq!(out, "schema: {\"type\":\"boolean\",\"title\":\"t\",\"description\":\"d\"}");
}

#[test]
fn titles_are_escaped() {
    let node = Node::String(StringNode {
        title: "say \"hi\"\n".to_string(),
        description: "back\\slash \u{1} ü".to_string(),
        default: Some("\t".to_string()),
        min_length: None,
        max_length: None,
    });
    let value = parsed(&node.to_json());
    assert_eq!(
        value,
        object(vec![
            ("type", text("string")),
            ("title", text("say \"hi\"\n")),
            ("description", text("back\\slash \u{1} ü")),
            ("default", text("\t")),
        ])
    );
}

#[test]
fn the_sample_document_reads_back_member_for_member() {
    let json = ObjectNode::from(sample_string_questions()).to_json();
    let food = object(vec![
        ("type", text("string")),
        ("title", text("What is your favourite food?")),
        ("description", text("Tell be about your food preferences")),
        ("default", text("Ice")),
        ("minLength", number(0)),
        ("maxLength", number(64)),
    ]);
    let expected = object(vec![
        ("type", text("object")),
        ("title", text("Zork")),
        ("description", text("Title zoek description")),
        (
            "properties",
            object(vec![
                ("1", food.clone()),
                (
                    "8",
                    object(vec![
                        ("type", text("array")),
                        ("title", text("What is your favourite food?")),
                        ("description", text("Tell be about your food preferences")),
                        ("items", food),
                    ]),
                ),
                (
                    "88",
                    object(vec![
                        ("type", text("integer")),
                        ("title", text("A number")),
                        ("description", text("Some number")),
                        ("default", number(1)),
                        ("multipleOf", number(10)),
                        ("minimum", number(0)),
                        ("maximum", number(100)),
                    ]),
                ),
                (
                    "222",
                    object(vec![
                        ("type", text("boolean")),
                        ("title", text("Some T/F 1")),
                        ("description", text("Some T/f")),
                        ("default", Value::Bool(false)),
                    ]),
                ),
                (
                    "24",
                    object(vec![
                        ("type", text("string")),
                        ("title", text("Zork and or Bork?")),
                        ("description", text("Some T/f")),
                        ("default", texts(&[])),
                        ("enum", texts(&["zork", "bork"])),
                        ("enumNames", texts(&["Zork", "Bork"])),
                    ]),
                ),
                (
                    "3",
                    object(vec![
                        ("type", text("string")),
                        ("title", text("Some title 2")),
                        ("description", text("Some 2 desc")),
                        ("minLength", number(0)),
                        ("maxLength", number(64)),
                    ]),
                ),
                (
                    "899",
                    object(vec![
                        ("type", text("boolean")),
                        ("title", text("I have read the terms and conditions")),
                        ("description", text("Some T/f")),
                        ("default", Value::Bool(false)),
                    ]),
                ),
            ]),
        ),
        ("additionalProperties", Value::Bool(false)),
        ("required", texts(&["1", "8", "88", "222", "24", "3", "899"])),
    ]);
    assert_eq!(parsed(&json), expected);
}
