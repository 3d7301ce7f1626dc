use alcubierre::renderer::atlas::AtlasDescriptor;
use alcubierre::renderer::atlas::AtlasSprite;
use alcubierre::renderer::atlas::AtlasSpriteSize;
use alcubierre::renderer::atlas::AtlasSpriteTrimInfo;
use alcubierre::renderer::atlas::AtlasVector2;
use alcubierre::renderer::atlas::GenericAtlasData;
use alcubierre::renderer::atlas::SpriteAtlas;
use alcubierre::renderer::buffer::size_of_slice;
use alcubierre::renderer::buffer::QuadIndexBuilder;
use alcubierre::scene::Scene;
use alcubierre::events::EngineError;
use alcubierre::ui::frontend::errors::UiError;
use alcubierre::ui::frontend::errors::UNKNOWN_ELEMENT_ERROR;
use alcubierre::ui::frontend::errors::UNKNOWN_ELEMENT_HELP;
use alcubierre::ui::frontend::rough::colors::hex_color;
use alcubierre::ui::frontend::rough::comment_stripper;
use alcubierre::ui::frontend::rough::colors::is_hex_digit;
use alcubierre::ui::frontend::rough::content::get_content;
use alcubierre::ui::frontend::rough::find_char;
use alcubierre::ui::frontend::rough::params::extract_params_from_line_for_button;
use alcubierre::ui::frontend::rough::params::try_extract_params_from_line_for_button;
use alcubierre::ui::frontend::rough::params::extract_params_from_line_for_text;
use alcubierre::ui::frontend::rough::params::try_extract_params_from_line_for_text;
use alcubierre::ui::frontend::rough::params::starts_with_open_angle_bracket;
use alcubierre::ui::frontend::rough::parse_element_type;
use alcubierre::ui::frontend::rough::spacing::parse_spacing_units;
use alcubierre::ui::frontend::rough::str_is;
use alcubierre::ui::frontend::ButtonElement;
use alcubierre::ui::frontend::ButtonStyleData;
use alcubierre::ui::frontend::Element::Button;
use alcubierre::ui::frontend::Element::Text;
use alcubierre::ui::frontend::ElementAlignment;
use alcubierre::ui::frontend::ElementAlignment::TopLeft;
use alcubierre::ui::frontend::HyperFoilAST;
use alcubierre::ui::frontend::RGBColor;
use alcubierre::ui::frontend::SpacingUnit::PercentHeight;
use alcubierre::ui::frontend::SpacingUnit::PercentWidth;
use alcubierre::ui::frontend::SpacingUnit::Pixels;
use alcubierre::ui::frontend::TextElement;
use alcubierre::ui::frontend::TextStyleData;
use alcubierre::ui::frontend::ValueOrVar::Value;
use alcubierre::ui::frontend::ValueOrVar::Variable;
use alcubierre::ui::parse_rough_line;
use alcubierre::ui::parse_ui_blob;

const BASIC: &str = "# A first interface\n<text class=\"sel2 xyz\" color=\"#fa11ea\" mt=\"2px\" ml=\"2%w\">Im on the left!</text>\n\n<button class=\"b1 cubes\" bind=\"dec_health\" w=\"40px\">Decrement Health</button>\n<text class=\"sel1\">Health: ?Health</text>\n";

#[test]
fn basic_rough_parse() {
    let basic_res = HyperFoilAST {
        elements: vec![
            Text(TextElement {
                content: Value("Im on the left!".to_string()),
                styles: TextStyleData {
                    font: "".to_string(),
                    font_size: Pixels(12),
                    alignment: TopLeft,
                    color: RGBColor {
                        red: 250,
                        green: 17,
                        blue: 234,
                    },
                    margin_top: Pixels(2),
                    margin_bottom: Pixels(0),
                    margin_left: PercentWidth(2),
                    margin_right: Pixels(0),
                },
                classes: vec!["sel2".to_string(), "xyz".to_string()],
            }),
            Button(ButtonElement {
                content: Value("Decrement Health".to_string()),
                styles: ButtonStyleData {
                    font: "".to_string(),
                    font_size_px: Pixels(12),
                    alignment: TopLeft,
                    color: RGBColor {
                        red: 255,
                        green: 255,
                        blue: 255,
                    },
                    background_color: RGBColor {
                        red: 0,
                        green: 0,
                        blue: 0,
                    },
                    margin_top: Pixels(0),
                    margin_bottom: Pixels(0),
                    margin_left: Pixels(0),
                    margin_right: Pixels(0),
                    width: Pixels(40),
                    height: Pixels(50),
                },
                classes: vec!["b1".to_string(), "cubes".to_string()],
                binding: "dec_health".to_string(),
            }),
            Text(TextElement {
                content: Variable(("Health".to_string(), "Health: ".to_string())),
                styles: TextStyleData {
                    font: "".to_string(),
                    font_size: Pixels(12),
                    alignment: ElementAlignment::TopLeft,
                    color: RGBColor {
                        red: 255,
                        green: 255,
                        blue: 255,
                    },
                    margin_top: Pixels(0),
                    margin_bottom: Pixels(0),
                    margin_left: Pixels(0),
                    margin_right: Pixels(0),
                },
                classes: vec!["sel1".to_string()],
            }),
        ],
    };

    assert_eq!(parse_ui_blob(BASIC), Ok(basic_res));
}

#[test]
fn every_parameter_of_a_button_is_read() {
    let line = "<button bind=\"go\" class=\"a  b\" align=\"center-vertical\" color=\"#000\" \
                font_size=\"-3px\" ml=\"1px\" mr=\"2%h\" mt=\"+3%w\" mb=\"4px\" bg_color=\"#0A0b0C\" \
                font=\"mono\" width=\"50%w\" height=\"7%h\">Go</button>";
    let params = try_extract_params_from_line_for_button(line).unwrap();
    assert_eq!(params.binding, Some("go".to_string()));
    assert_eq!(params.classes, vec!["a".to_string(), "".to_string(), "b".to_string()]);
    assert_eq!(
        params.styles,
        ButtonStyleData {
            font: "mono".to_string(),
            font_size_px: Pixels(-3),
            alignment: ElementAlignment::CenterVertical,
            color: RGBColor { red: 0, green: 0, blue: 0 },
            background_color: RGBColor { red: 10, green: 11, blue: 12 },
            margin_top: PercentWidth(3),
            margin_bottom: Pixels(4),
            margin_left: Pixels(1),
            margin_right: PercentHeight(2),
            width: PercentWidth(50),
            height: PercentHeight(7),
        }
    );
    let short = try_extract_params_from_line_for_button("<button w=\"1px\" h=\"2px\">x<").unwrap();
    assert_eq!(short.styles.width, Pixels(1));
    assert_eq!(short.styles.height, Pixels(2));
    assert_eq!(short.binding, None);
}

#[test]
fn later_parameter_overrides_and_classes_add_up() {
    let line = "<text mt=\"1px\" class=\"a\" mt=\"2px\" class=\"b c\">x</text>";
    let params = try_extract_params_from_line_for_text(line).unwrap();
    assert_eq!(params.styles.margin_top, Pixels(2));
    assert_eq!(params.classes, vec!["a".to_string(), "b".to_string(), "c".to_string()]);
    assert_eq!(params.binding, None);
}

#[test]
fn text_passes_over_what_only_buttons_have() {
    let line = "<text bind=\"x\" bg_color=\"nonsense\" width=\"wide\" h=\"tall\" font=\"serif\">x</text>";
    let params = try_extract_params_from_line_for_text(line).unwrap();
    assert_eq!(params.binding, None);
    assert_eq!(params.styles.font, "serif".to_string());
    assert_eq!(
        try_extract_params_from_line_for_button(line).err(),
        Some(UiError::HexColorNotValid)
    );
}

#[test]
fn reading_stops_at_what_is_no_parameter() {
    let line = "<text mt=\"1px\" unknown=\"1\" mt=\"2px\">x</text>";
    let params = try_extract_params_from_line_for_text(line).unwrap();
    assert_eq!(params.styles.margin_top, Pixels(1));
    let line = "<text mt=\"1px\"\t\n mb=\"5px\",ml=\"2px\">x</text>";
    let params = try_extract_params_from_line_for_text(line).unwrap();
    assert_eq!(params.styles.margin_bottom, Pixels(5));
    assert_eq!(params.styles.margin_left, Pixels(0));
}

#[test]
fn malformed_tags_are_told_apart() {
    let text = try_extract_params_from_line_for_text;
    assert_eq!(text("text mt=\"1px\">x<").err(), Some(UiError::FailedToGetInnerParams));
    assert_eq!(text("<text>x<").err(), Some(UiError::FailedToGetInnerParams));
    assert_eq!(text("< mt=\"1px\">x<").err(), Some(UiError::FailedToGetInnerParams));
    assert_eq!(text("<text >x<").err(), Some(UiError::FailedToGetInnerParams));
    assert_eq!(text("<text mt=\"1px\"").err(), Some(UiError::FailedToGetInnerParams));
    assert_eq!(text("").err(), Some(UiError::FailedToGetInnerParams));
    assert_eq!(text("<text nothing>x<").err(), Some(UiError::FailedToGetAllParams));
    assert_eq!(text("<text mt=\"\">x<").err(), Some(UiError::FailedToGetAllParams));
    assert_eq!(text("<text mt=1px>x<").err(), Some(UiError::FailedToGetAllParams));
    assert_eq!(text("<text  mt=\"1px\">x<").err(), Some(UiError::FailedToGetAllParams));
    assert_eq!(text("<text mt=\"1em\">x<").err(), Some(UiError::FailedToParseUnit));
    assert_eq!(text("<text color=\"red\">x<").err(), Some(UiError::HexColorNotValid));
    assert_eq!(text("<text align=\"left\">x<").err(), Some(UiError::UnknownAlignment));
    assert_eq!(
        text("<text align=\"left\" mt=\"1em\">x<").err(),
        Some(UiError::UnknownAlignment)
    );
    assert_eq!(
        text("<text mt=\"1em\" align=\"left\">x<").err(),
        Some(UiError::FailedToParseUnit)
    );
}

#[test]
fn lengths_are_a_number_and_a_unit() {
    assert_eq!(parse_spacing_units("12px"), Ok(Pixels(12)));
    assert_eq!(parse_spacing_units("-7%w"), Ok(PercentWidth(-7)));
    assert_eq!(parse_spacing_units("+7%h"), Ok(PercentHeight(7)));
    assert_eq!(parse_spacing_units("007px and more"), Ok(Pixels(7)));
    assert_eq!(parse_spacing_units("5px%w"), Ok(Pixels(5)));
    assert_eq!(parse_spacing_units("2147483647px"), Ok(Pixels(i32::MAX)));
    assert_eq!(parse_spacing_units("-2147483648px"), Ok(Pixels(i32::MIN)));
    assert_eq!(parse_spacing_units("-0px"), Ok(Pixels(0)));
    for bad in [
        "2147483648px", "-2147483649px", "99999999999999999999999px", "px", "-px", "+px", "1 px",
        "1.5px", "5%wpx", "12", "12p", "12%", "", "x", "1-2px", "--1px",
    ] {
        assert_eq!(parse_spacing_units(bad), Err(UiError::FailedToParseUnit));
    }
}

#[test]
fn colours_are_six_hex_digits() {
    assert_eq!(hex_color("#fa11ea"), Ok(RGBColor { red: 250, green: 17, blue: 234 }));
    assert_eq!(hex_color("#FFFFFF"), Ok(RGBColor { red: 255, green: 255, blue: 255 }));
    assert_eq!(hex_color("#00000a"), Ok(RGBColor { red: 0, green: 0, blue: 10 }));
    assert_eq!(hex_color("#fff"), Ok(RGBColor { red: 255, green: 255, blue: 255 }));
    assert_eq!(hex_color("#000"), Ok(RGBColor { red: 0, green: 0, blue: 0 }));
    assert_eq!(hex_color("#0102035"), Ok(RGBColor { red: 1, green: 2, blue: 3 }));
    for bad in ["", "#", "#abc", "#FFF", "fa11ea", "#fa11e", "#fa11eg", "#+a11ea", " #fa11ea"] {
        assert_eq!(hex_color(bad), Err(UiError::HexColorNotValid));
    }
    for c in "0123456789abcdefABCDEF".chars() {
        assert!(is_hex_digit(c));
    }
    for c in "gG/:@`[ -+".chars() {
        assert!(!is_hex_digit(c));
    }
}

#[test]
fn content_is_fixed_text_or_a_variable_with_prefix() {
    assert_eq!(get_content("<text a=\"b\">Hello</text>"), Ok(Value("Hello".to_string())));
    assert_eq!(
        get_content("<text a=\"b\">Health: ?Health</text>"),
        Ok(Variable(("Health".to_string(), "Health: ".to_string())))
    );
    assert_eq!(
        get_content("<text a=\"b\">?a?b?</text>"),
        Ok(Variable(("ab".to_string(), "".to_string())))
    );
    assert_eq!(get_content(">x<?"), Ok(Value("x".to_string())));
    assert_eq!(get_content("<text a=\"b\"></text>"), Err(UiError::MissingContent));
    assert_eq!(get_content("<text a=\"b\">Hello"), Err(UiError::MissingContent));
    assert_eq!(get_content("no tag"), Err(UiError::MissingContent));
    assert_eq!(get_content(""), Err(UiError::MissingContent));
}

#[test]
fn element_name_ends_at_the_first_space() {
    assert_eq!(parse_element_type("<text a=\"b\">x<"), Ok("text"));
    assert_eq!(parse_element_type("<b c"), Ok("b"));
    assert_eq!(parse_element_type("<text>"), Err(UiError::FailedToGetInnerParams));
    assert_eq!(parse_element_type("< text"), Err(UiError::FailedToGetInnerParams));
    assert_eq!(parse_element_type("text "), Err(UiError::FailedToGetInnerParams));
    assert!(starts_with_open_angle_bracket("<"));
    assert!(!starts_with_open_angle_bracket(" <"));
    assert!(!starts_with_open_angle_bracket(""));
}

#[test]
fn lines_are_checked_in_a_fixed_order() {
    assert_eq!(parse_rough_line("<text"), Err(UiError::FailedToGetInnerParams));
    assert_eq!(parse_rough_line("<image src=\"a\">"), Err(UiError::MissingContent));
    assert_eq!(parse_rough_line("<image src=\"a\">x</image>"), Err(UiError::UnknownElement));
    assert_eq!(
        parse_rough_line("<button class=\"a\">x</button>"),
        Err(UiError::MissingBinding)
    );
    assert_eq!(
        parse_rough_line("<button class=\"a\" mt=\"x\">x</button>"),
        Err(UiError::FailedToParseUnit)
    );
    assert!(parse_rough_line("<button bind=\"a\">x</button>").is_ok());
}

#[test]
fn other_lines_are_passed_over() {
    assert_eq!(parse_ui_blob(""), Ok(HyperFoilAST { elements: vec![] }));
    assert_eq!(parse_ui_blob("# only a comment"), Ok(HyperFoilAST { elements: vec![] }));
    assert_eq!(parse_ui_blob("\n\ntext\n #<text\n"), Ok(HyperFoilAST { elements: vec![] }));
    let two = parse_ui_blob("<text font=\"a\">one</text>\r\n<text font=\"b\">two</text>").unwrap();
    assert_eq!(two.elements.len(), 2);
    assert_eq!(
        parse_ui_blob("<text font=\"a\">one</text>\n<oops\n<text font=\"b\">two</text>"),
        Err(UiError::FailedToGetInnerParams)
    );
}

#[test]
fn scene_takes_a_description_that_parses() {
    let mut scene: Scene<u8> = Scene::new();
    assert_eq!(
        scene.try_register_ui("<text color=\"blue\">x</text>"),
        Err(EngineError::MalformedSceneAsset(UiError::HexColorNotValid))
    );
    assert!(scene.ui_ast.is_none());
    assert_eq!(scene.try_register_ui("<button>X</button>"), Err(
        EngineError::MalformedSceneAsset(UiError::FailedToGetInnerParams)
    ));
    assert_eq!(scene.try_register_ui(BASIC), Ok(()));
    assert_eq!(scene.ui_ast.as_ref().unwrap().elements.len(), 3);
    scene.register_ui("<text font=\"a\">one</text>");
    assert_eq!(scene.ui_ast.as_ref().unwrap().elements.len(), 1);
    scene.register_ui(BASIC);
    assert_eq!(scene.ui_ast.as_ref().unwrap().elements.len(), 3);
}

#[test]
fn errors_carry_their_messages() {
    assert_eq!(UiError::UnknownElement.message(), UNKNOWN_ELEMENT_ERROR);
    assert_eq!(UiError::UnknownElement.help(), UNKNOWN_ELEMENT_HELP);
    assert_eq!(UiError::FailedToParseUnit.message(), "Failed to parse unit");
    assert_eq!(UiError::FailedToParseUnit.help(), "Valid units are: %h, %w, and px");
    assert_eq!(UiError::HexColorNotValid.message(), "Failed to parse Hex color into RGB value.");
    assert_eq!(UiError::MissingBinding.message(), "Button has no binding");
}

#[test]
fn scanning_and_word_comparison() {
    assert_eq!(find_char("a=b=c", 0, '='), 1);
    assert_eq!(find_char("a=b=c", 2, '='), 3);
    assert_eq!(find_char("a=b=c", 4, '='), 5);
    assert_eq!(find_char("", 0, '='), 0);
    assert_eq!(find_char("héllo wörld", 0, ' '), 5);
    assert!(str_is("héllo", "héllo"));
    assert!(!str_is("hello", "hell"));
    assert!(!str_is("hello", "hellp"));
    assert!(str_is("", ""));
}

#[test]
fn slice_size_counts_bytes() {
    assert_eq!(size_of_slice::<u32>(&[1, 2, 3]), 12);
    assert_eq!(size_of_slice::<u8>(&[]), 0);
    assert_eq!(size_of_slice::<(u64, u64)>(&[(1, 2), (3, 4)]), 32);
}

#[test]
fn quads_are_drawn_as_two_triangles() {
    let mut builder = QuadIndexBuilder::new();
    assert_eq!(builder.vertex_count(), 0);
    assert!(builder.push_quad());
    assert!(builder.push_quad());
    assert_eq!(builder.index_data(), &vec![0, 1, 2, 0, 2, 3, 4, 5, 6, 4, 6, 7]);
    assert_eq!(builder.vertex_count(), 8);
}

fn sprite(name: &str, x: u64) -> AtlasSprite {
    AtlasSprite {
        name_id: name.to_string(),
        origin: AtlasVector2 { x: 0, y: 0 },
        position: AtlasVector2 { x, y: 2 * x },
        source_size: AtlasSpriteSize { width: 16, height: 32 },
        padding: 1,
        trimmed: false,
        trim_rec: AtlasSpriteTrimInfo { x: 0, y: 0, width: 16, height: 32 },
    }
}

#[test]
fn atlas_finds_sprites_by_name() {
    let descriptor = AtlasDescriptor {
        atlas: GenericAtlasData { width: 256, height: 128, sprite_count: 3 },
        sprites: vec![sprite("hero", 1), sprite("tree", 2), sprite("hero", 3)],
    };
    let atlas = SpriteAtlas::new(vec![9, 8, 7], descriptor);
    assert_eq!(atlas.width(), 256);
    assert_eq!(atlas.height(), 128);
    assert_eq!(atlas.atlas(), &vec![9, 8, 7]);
    assert_eq!(atlas.lookup_sprite_data_from_descriptor("hero").unwrap().position.x, 3);
    assert_eq!(atlas.lookup_sprite_data_from_descriptor("tree").unwrap().position.y, 4);
    assert_eq!(atlas.lookup_sprite_data_from_descriptor("rock"), None);
}

#[test]
fn comments_end_at_the_line_break() {
    assert_eq!(comment_stripper("# a comment\n<text"), Some("\n<text"));
    assert_eq!(comment_stripper("#x\r\nrest"), Some("\r\nrest"));
    assert_eq!(comment_stripper("#x"), Some(""));
    assert_eq!(comment_stripper("#"), None);
    assert_eq!(comment_stripper("#\nx"), None);
    assert_eq!(comment_stripper("x # y"), None);
    assert_eq!(comment_stripper(""), None);
}

#[test]
fn lines_that_read_give_their_parameters() {
    let text = extract_params_from_line_for_text("<text color=\"#fa11ea\" class=\"a\">a</text>");
    assert_eq!(text.styles.color, RGBColor { red: 250, green: 17, blue: 234 });
    assert_eq!(text.classes, vec!["a".to_string()]);
    let button = extract_params_from_line_for_button("<button bind=\"go\" w=\"3px\">X</button>");
    assert_eq!(button.binding, Some("go".to_string()));
    assert_eq!(button.styles.width, Pixels(3));
    assert_eq!(
        try_extract_params_from_line_for_button("<button>X</button>").err(),
        Some(UiError::FailedToGetInnerParams)
    );
    assert_eq!(
        try_extract_params_from_line_for_text("<text color=\"fa11ea\">a</text>").err(),
        Some(UiError::HexColorNotValid)
    );
}
