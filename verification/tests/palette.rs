use crispii_colours::{Colour, ColourChannelIntensity, OpacityChannelIntensity, Palette};

#[test]
fn add_colour() {
    let palette = Palette::new().add_colour(
        "red",
        Colour::rgb(
            ColourChannelIntensity::new(0xFF),
            ColourChannelIntensity::new(0x00),
            ColourChannelIntensity::new(0x00),
        ),
    );

    let result = palette.get_colour_names();

    assert_eq!(result.len(), 1);
    assert_eq!(*result.get(0).unwrap(), "red");
}

#[test]
fn try_add_duplicate_colour() {
    let palette = Palette::new()
        .add_colour(
            "red",
            Colour::rgb(
                ColourChannelIntensity::new(0xFF),
                ColourChannelIntensity::new(0x00),
                ColourChannelIntensity::new(0x00),
            ),
        )
        .add_colour(
            "red",
            Colour::rgb(
                ColourChannelIntensity::new(0xFF),
                ColourChannelIntensity::new(0x00),
                ColourChannelIntensity::new(0x00),
            ),
        );

    let result = palette.get_colour_names();

    assert_eq!(result.len(), 1);
    assert_eq!(*result.get(0).unwrap(), "red");
}

#[test]
fn update_colour() {
    let result: u32 = Palette::new()
        .add_colour(
            "red",
            Colour::rgb(
                ColourChannelIntensity::new(0xFF),
                ColourChannelIntensity::new(0x00),
                ColourChannelIntensity::new(0x00),
            ),
        )
        .update_colour(
            "red",
            Colour::rgb(
                ColourChannelIntensity::new(0xFA),
                ColourChannelIntensity::new(0x00),
                ColourChannelIntensity::new(0x00),
            ),
        )
        .get_colour_rgb_hex("red")
        .unwrap();

    assert_eq!(result, 0xFA_00_00);
}

#[test]
fn try_update_non_existent_colour() {
    let palette = Palette::new()
        .add_colour(
            "red",
            Colour::rgb(
                ColourChannelIntensity::new(0xFF),
                ColourChannelIntensity::new(0x00),
                ColourChannelIntensity::new(0x00),
            ),
        )
        .update_colour(
            "pink",
            Colour::rgb(
                ColourChannelIntensity::new(0xE0),
                ColourChannelIntensity::new(0x00),
                ColourChannelIntensity::new(0x00),
            ),
        );

    let result = palette.get_colour_names();

    assert_eq!(result.len(), 1);
    assert_eq!(*result.get(0).unwrap(), "red");
}

#[test]
fn remove_colour() {
    let palette = Palette::new()
        .add_colour(
            "red",
            Colour::rgb(
                ColourChannelIntensity::new(0xFF),
                ColourChannelIntensity::new(0x00),
                ColourChannelIntensity::new(0x00),
            ),
        )
        .remove_colour("red");

    let result = palette.get_colour_names();

    assert_eq!(result.len(), 0);
}

#[test]
fn try_remove_non_existent_colour() {
    let palette = Palette::new()
        .add_colour(
            "red",
            Colour::rgb(
                ColourChannelIntensity::new(0xFF),
                ColourChannelIntensity::new(0x00),
                ColourChannelIntensity::new(0x00),
            ),
        )
        .remove_colour("pink");

    let result = palette.get_colour_names();

    assert_eq!(result.len(), 1);
    assert_eq!(*result.get(0).unwrap(), "red");
}

fn rgb(red: u8, green: u8, blue: u8) -> Colour {
    Colour::rgb(
        ColourChannelIntensity::new(red),
        ColourChannelIntensity::new(green),
        ColourChannelIntensity::new(blue),
    )
}

fn sorted_names(palette: &Palette) -> Vec<String> {
    let mut names: Vec<String> = Vec::new();
    for name in palette.get_colour_names() {
        names.push(name.to_string());
    }
    names.sort();
    names
}

fn primaries() -> Palette {
    Palette::new()
        .add_colour("red", rgb(0xFF, 0x00, 0x00))
        .add_colour("green", rgb(0x00, 0xFF, 0x00))
        .add_colour("blue", rgb(0x00, 0x00, 0xFF))
}

#[test]
fn new_palette_is_empty() {
    let palette = Palette::new();
    assert_eq!(palette.len(), 0);
    assert!(palette.get_colour_names().is_empty());
    assert_eq!(palette.get_colour_rgb_hex("red"), None);
    assert_eq!(palette.get_colour_rgba_hex("red"), None);
}

#[test]
fn second_add_under_a_name_is_ignored() {
    let palette = Palette::new()
        .add_colour("red", rgb(0xFF, 0x00, 0x00))
        .add_colour("red", rgb(0x00, 0x00, 0xFF));
    assert_eq!(palette.len(), 1);
    assert_eq!(sorted_names(&palette), vec!["red".to_string()]);
    assert_eq!(palette.get_colour_rgb_hex("red"), Some(0xFF_00_00));
}

#[test]
fn add_under_a_taken_name_keeps_the_other_entries() {
    let palette = primaries().add_colour("green", rgb(0x12, 0x34, 0x56));
    assert_eq!(palette.len(), 3);
    assert_eq!(palette.get_colour_rgb_hex("red"), Some(0xFF_00_00));
    assert_eq!(palette.get_colour_rgb_hex("green"), Some(0x00_FF_00));
    assert_eq!(palette.get_colour_rgb_hex("blue"), Some(0x00_00_FF));
}

#[test]
fn update_of_a_missing_name_changes_nothing() {
    let palette = primaries().update_colour("pink", rgb(0xE0, 0x00, 0x00));
    assert_eq!(palette.len(), 3);
    assert_eq!(
        sorted_names(&palette),
        vec!["blue".to_string(), "green".to_string(), "red".to_string()]
    );
    assert_eq!(palette.get_colour_rgb_hex("pink"), None);
    assert_eq!(palette.get_colour_rgb_hex("red"), Some(0xFF_00_00));
    assert_eq!(palette.get_colour_rgb_hex("green"), Some(0x00_FF_00));
    assert_eq!(palette.get_colour_rgb_hex("blue"), Some(0x00_00_FF));
}

#[test]
fn update_replaces_only_the_named_colour() {
    let palette = primaries().update_colour("green", rgb(0x00, 0x80, 0x00));
    assert_eq!(palette.len(), 3);
    assert_eq!(palette.get_colour_rgb_hex("red"), Some(0xFF_00_00));
    assert_eq!(palette.get_colour_rgb_hex("green"), Some(0x00_80_00));
    assert_eq!(palette.get_colour_rgb_hex("blue"), Some(0x00_00_FF));
}

#[test]
fn remove_of_a_missing_name_changes_nothing() {
    let palette = primaries().remove_colour("pink");
    assert_eq!(palette.len(), 3);
    assert_eq!(
        sorted_names(&palette),
        vec!["blue".to_string(), "green".to_string(), "red".to_string()]
    );
    assert_eq!(palette.get_colour_rgb_hex("red"), Some(0xFF_00_00));
    assert_eq!(palette.get_colour_rgb_hex("green"), Some(0x00_FF_00));
    assert_eq!(palette.get_colour_rgb_hex("blue"), Some(0x00_00_FF));
}

#[test]
fn remove_frees_only_the_named_colour() {
    let palette = primaries().remove_colour("red");
    assert_eq!(palette.len(), 2);
    assert_eq!(sorted_names(&palette), vec!["blue".to_string(), "green".to_string()]);
    assert_eq!(palette.get_colour_rgb_hex("red"), None);
    assert_eq!(palette.get_colour_rgb_hex("green"), Some(0x00_FF_00));
    assert_eq!(palette.get_colour_rgb_hex("blue"), Some(0x00_00_FF));

    let palette = primaries().remove_colour("green");
    assert_eq!(sorted_names(&palette), vec!["blue".to_string(), "red".to_string()]);
    assert_eq!(palette.get_colour_rgb_hex("blue"), Some(0x00_00_FF));

    let palette = primaries().remove_colour("blue");
    assert_eq!(sorted_names(&palette), vec!["green".to_string(), "red".to_string()]);
    assert_eq!(palette.get_colour_rgb_hex("green"), Some(0x00_FF_00));
}

#[test]
fn a_freed_name_can_be_taken_again() {
    let palette = primaries().remove_colour("red").add_colour("red", rgb(0xFA, 0x00, 0x00));
    assert_eq!(palette.len(), 3);
    assert_eq!(palette.get_colour_rgb_hex("red"), Some(0xFA_00_00));
}

#[test]
fn added_colour_is_found_and_a_missing_one_is_not() {
    let colour = rgb(0xFF, 0x00, 0x00);
    let palette = Palette::new().add_colour("red", colour);
    assert_eq!(palette.get_colour_rgb_hex("red"), Some(colour.as_rgb_hex()));
    assert_eq!(palette.get_colour_rgba_hex("red"), Some(colour.as_rgba_hex()));
    assert_eq!(palette.get_colour_rgb_hex("missing"), None);
    assert_eq!(palette.get_colour_rgba_hex("missing"), None);
}

#[test]
fn red_updated_to_a_darker_red() {
    let palette = Palette::new()
        .add_colour("red", rgb(0xFF, 0x00, 0x00))
        .update_colour("red", rgb(0xFA, 0x00, 0x00));
    assert_eq!(palette.get_colour_rgb_hex("red"), Some(0xFA0000));
    assert_eq!(palette.len(), 1);
}

#[test]
fn rgba_hex_of_a_stored_colour_carries_its_opacity() {
    let half = Colour::rgba(
        ColourChannelIntensity::new(0xFF),
        ColourChannelIntensity::new(0xFF),
        ColourChannelIntensity::new(0xFF),
        OpacityChannelIntensity::new(50).expect("legal value"),
    );
    let palette = Palette::new().add_colour("mist", half).add_colour("ink", rgb(0, 0, 0));
    assert_eq!(palette.get_colour_rgba_hex("mist"), Some(0xFFFFFF7F));
    assert_eq!(palette.get_colour_rgb_hex("mist"), Some(0xFFFFFF));
    assert_eq!(palette.get_colour_rgba_hex("ink"), Some(0x000000FF));
}

#[test]
fn names_are_told_apart_exactly() {
    let palette = Palette::new()
        .add_colour("red", rgb(1, 0, 0))
        .add_colour("Red", rgb(2, 0, 0))
        .add_colour("red ", rgb(3, 0, 0))
        .add_colour("re d", rgb(4, 0, 0))
        .add_colour("rouge\u{301}", rgb(5, 0, 0));
    assert_eq!(palette.len(), 5);
    assert_eq!(palette.get_colour_rgb_hex("red"), Some(0x01_00_00));
    assert_eq!(palette.get_colour_rgb_hex("Red"), Some(0x02_00_00));
    assert_eq!(palette.get_colour_rgb_hex("red "), Some(0x03_00_00));
    assert_eq!(palette.get_colour_rgb_hex("re d"), Some(0x04_00_00));
    assert_eq!(palette.get_colour_rgb_hex("rouge\u{301}"), Some(0x05_00_00));
    assert_eq!(palette.get_colour_rgb_hex("re"), None);
}

#[test]
fn names_come_out_once_each() {
    let palette = primaries().add_colour("red", rgb(0, 0, 0)).update_colour("blue", rgb(0, 0, 1));
    let names = palette.get_colour_names();
    assert_eq!(names.len(), palette.len());
    assert_eq!(
        sorted_names(&palette),
        vec!["blue".to_string(), "green".to_string(), "red".to_string()]
    );
}

#[test]
fn clone_holds_the_same_entries_and_is_independent() {
    let source = primaries();
    let copy = source.clone().remove_colour("red").add_colour("pink", rgb(0xE0, 0, 0));
    assert_eq!(source.len(), 3);
    assert_eq!(source.get_colour_rgb_hex("red"), Some(0xFF_00_00));
    assert_eq!(source.get_colour_rgb_hex("pink"), None);
    assert_eq!(copy.len(), 3);
    assert_eq!(copy.get_colour_rgb_hex("red"), None);
    assert_eq!(copy.get_colour_rgb_hex("pink"), Some(0xE0_00_00));
    assert_eq!(copy.get_colour_rgb_hex("green"), Some(0x00_FF_00));
}
