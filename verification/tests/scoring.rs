use guppies::hue::Hue;
use guppies::token::{parse_guess, GuessError, Token, VariantKind};
use guppies::variant::{
    DifferentValues, GameVariant, Manyguppies, OddOrEvenGuppies, PlainGuppies, RainbowGuppies,
};

#[test]
fn plain_score_all_accepted_tokens() {
    let v = PlainGuppies {
        value_one: 3,
        value_two: 7,
    };
    assert_eq!(v.check_guess(Token::Higher), Ok(true));
    assert_eq!(v.check_guess(Token::Lower), Ok(false));
    assert_eq!(v.check_guess(Token::Same), Ok(false));
    let eq = PlainGuppies {
        value_one: 5,
        value_two: 5,
    };
    assert_eq!(eq.check_guess(Token::Same), Ok(true));
    assert_eq!(eq.check_guess(Token::Higher), Ok(false));
    assert_eq!(eq.check_guess(Token::Lower), Ok(false));
}

#[test]
fn plain_score_rejects_foreign_tokens() {
    let v = PlainGuppies {
        value_one: 3,
        value_two: 7,
    };
    assert_eq!(v.check_guess(Token::Quit), Err(GuessError::InvalidGuess));
    assert_eq!(v.check_guess(Token::Odd), Err(GuessError::InvalidGuess));
    assert_eq!(v.check_guess(Token::Closer), Err(GuessError::InvalidGuess));
}

#[test]
fn parity_score_all_accepted_tokens() {
    let v = OddOrEvenGuppies {
        num_one: 9,
        num_two: 4,
    };
    assert_eq!(v.check_guess(Token::Odd), Ok(false));
    assert_eq!(v.check_guess(Token::Even), Ok(true));
    assert_eq!(v.check_guess(Token::Same), Ok(false));
    let odd = OddOrEvenGuppies {
        num_one: 7,
        num_two: 7,
    };
    assert_eq!(odd.check_guess(Token::Odd), Ok(true));
    assert_eq!(odd.check_guess(Token::Even), Ok(false));
    assert_eq!(odd.check_guess(Token::Same), Ok(true));
}

#[test]
fn parity_score_rejects_foreign_tokens() {
    let v = OddOrEvenGuppies {
        num_one: 1,
        num_two: 2,
    };
    assert_eq!(v.check_guess(Token::Higher), Err(GuessError::InvalidGuess));
    assert_eq!(v.check_guess(Token::Quit), Err(GuessError::InvalidGuess));
}

#[test]
fn parity_even_ignores_first_value() {
    for first in 0..=100 {
        let v = OddOrEvenGuppies {
            num_one: first,
            num_two: 4,
        };
        assert_eq!(v.check_guess(Token::Even), Ok(true));
        assert_eq!(v.check_guess(Token::Odd), Ok(false));
    }
}

#[test]
fn spectrum_distances_follow_palette_order() {
    assert_eq!(Hue::Violet.distance_to_reference(), 3);
    assert_eq!(Hue::Indigo.distance_to_reference(), 2);
    assert_eq!(Hue::Blue.distance_to_reference(), 1);
    assert_eq!(Hue::Green.distance_to_reference(), 0);
    assert_eq!(Hue::Yellow.distance_to_reference(), 1);
    assert_eq!(Hue::Orange.distance_to_reference(), 2);
    assert_eq!(Hue::Red.distance_to_reference(), 3);
}

#[test]
fn spectrum_red_then_blue_is_closer() {
    let v = RainbowGuppies {
        color_one: Hue::Red,
        color_two: Hue::Blue,
    };
    assert_eq!(v.check_guess(Token::Closer), Ok(true));
    assert_eq!(v.check_guess(Token::Farther), Ok(false));
    assert_eq!(v.check_guess(Token::Same), Ok(false));
}

#[test]
fn spectrum_same_and_foreign_tokens() {
    let same = RainbowGuppies {
        color_one: Hue::Orange,
        color_two: Hue::Orange,
    };
    assert_eq!(same.check_guess(Token::Same), Ok(true));
    assert_eq!(same.check_guess(Token::Closer), Ok(false));
    assert_eq!(same.check_guess(Token::Farther), Ok(false));
    assert_eq!(same.check_guess(Token::Quit), Err(GuessError::InvalidGuess));
    assert_eq!(same.check_guess(Token::Even), Err(GuessError::InvalidGuess));
    // Violet and Red sit at equal distance on opposite sides of the
    // reference hue: neither closer nor farther, yet not the same hue.
    let tied = RainbowGuppies {
        color_one: Hue::Violet,
        color_two: Hue::Red,
    };
    assert_eq!(tied.check_guess(Token::Closer), Ok(false));
    assert_eq!(tied.check_guess(Token::Farther), Ok(false));
    assert_eq!(tied.check_guess(Token::Same), Ok(false));
}

#[test]
fn parse_guess_accepts_each_variant_set() {
    assert_eq!(parse_guess(VariantKind::Plain, "h"), Some(Token::Higher));
    assert_eq!(parse_guess(VariantKind::Plain, "l"), Some(Token::Lower));
    assert_eq!(parse_guess(VariantKind::Plain, "s"), Some(Token::Same));
    assert_eq!(parse_guess(VariantKind::Plain, "q"), Some(Token::Quit));
    assert_eq!(parse_guess(VariantKind::Parity, "o"), Some(Token::Odd));
    assert_eq!(parse_guess(VariantKind::Parity, "e"), Some(Token::Even));
    assert_eq!(parse_guess(VariantKind::Parity, "s"), Some(Token::Same));
    assert_eq!(parse_guess(VariantKind::Spectrum, "c"), Some(Token::Closer));
    assert_eq!(parse_guess(VariantKind::Spectrum, "f"), Some(Token::Farther));
    assert_eq!(parse_guess(VariantKind::Spectrum, "q"), Some(Token::Quit));
}

#[test]
fn parse_guess_is_case_insensitive() {
    assert_eq!(parse_guess(VariantKind::Plain, "H"), Some(Token::Higher));
    assert_eq!(parse_guess(VariantKind::Parity, "E"), Some(Token::Even));
    assert_eq!(parse_guess(VariantKind::Spectrum, "Q"), Some(Token::Quit));
}

#[test]
fn parse_guess_rejects_everything_else() {
    assert_eq!(parse_guess(VariantKind::Plain, ""), None);
    assert_eq!(parse_guess(VariantKind::Plain, "hh"), None);
    assert_eq!(parse_guess(VariantKind::Plain, "o"), None);
    assert_eq!(parse_guess(VariantKind::Parity, "h"), None);
    assert_eq!(parse_guess(VariantKind::Spectrum, "x"), None);
    assert_eq!(parse_guess(VariantKind::Spectrum, " c"), None);
}

#[test]
fn generate_draws_within_the_documented_ranges() {
    let mut plain = PlainGuppies::new();
    let mut parity = OddOrEvenGuppies::new();
    for _ in 0..200 {
        plain.generate_new_random();
        assert!((1..=10).contains(&plain.value_one));
        assert!((1..=10).contains(&plain.value_two));
        parity.generate_new_random();
        assert!((1..=100).contains(&parity.num_one));
        assert!((1..=100).contains(&parity.num_two));
    }
}

#[test]
fn spectrum_generate_draws_the_two_hues_independently() {
    let mut v = RainbowGuppies::new();
    let mut differed = false;
    for _ in 0..300 {
        v.generate_new_random();
        if v.color_one != v.color_two {
            differed = true;
        }
    }
    // Two independent uniform draws from seven hues differ six times in
    // seven; three hundred rounds without one differing pair would mean
    // the draws are tied.
    assert!(differed);
}

#[test]
fn refresh_second_keeps_the_revealed_first_value() {
    let mut plain = PlainGuppies {
        value_one: 3,
        value_two: 7,
    };
    for _ in 0..50 {
        plain.refresh_second();
        assert_eq!(plain.value_one, 3);
        assert!((1..=10).contains(&plain.value_two));
    }
    let mut parity = OddOrEvenGuppies {
        num_one: 42,
        num_two: 9,
    };
    for _ in 0..50 {
        parity.refresh_second();
        assert_eq!(parity.num_one, 42);
        assert!((1..=100).contains(&parity.num_two));
    }
    let mut rainbow = RainbowGuppies {
        color_one: Hue::Red,
        color_two: Hue::Green,
    };
    for _ in 0..50 {
        rainbow.refresh_second();
        assert_eq!(rainbow.color_one, Hue::Red);
    }
}

#[test]
fn composite_refresh_keeps_the_delegate_and_its_first_value() {
    let mut v = Manyguppies::new();
    for _ in 0..100 {
        v.generate_new_random();
        let kind = v.current;
        let first_plain = v.plain.value_one;
        let first_parity = v.oddoreven.num_one;
        let first_rainbow = v.rainbow.color_one;
        v.refresh_second();
        assert_eq!(v.current, kind);
        assert_eq!(v.plain.value_one, first_plain);
        assert_eq!(v.oddoreven.num_one, first_parity);
        assert_eq!(v.rainbow.color_one, first_rainbow);
    }
}

#[test]
fn composite_delegates_roughly_uniformly() {
    let mut v = Manyguppies::new();
    let mut counts = [0usize; 3];
    let rounds = 3000;
    for _ in 0..rounds {
        v.generate_new_random();
        match v.current {
            VariantKind::Plain => counts[0] += 1,
            VariantKind::Parity => counts[1] += 1,
            VariantKind::Spectrum => counts[2] += 1,
        }
    }
    for &c in &counts {
        // Each of the three should take about a third of the rounds; a
        // bound of a fifth keeps the test far from statistical noise.
        assert!(c > rounds / 5, "delegate chosen only {} of {} times", c, rounds);
    }
}

#[test]
fn composite_scores_with_its_current_delegate() {
    let mut v = Manyguppies::new();
    v.plain = PlainGuppies {
        value_one: 2,
        value_two: 9,
    };
    v.current = VariantKind::Plain;
    assert_eq!(v.check_guess(Token::Higher), Ok(true));
    assert_eq!(v.check_guess(Token::Odd), Err(GuessError::InvalidGuess));
    v.oddoreven = OddOrEvenGuppies {
        num_one: 2,
        num_two: 3,
    };
    v.current = VariantKind::Parity;
    assert_eq!(v.check_guess(Token::Odd), Ok(true));
    assert_eq!(v.check_guess(Token::Higher), Err(GuessError::InvalidGuess));
}

#[test]
fn variant_union_dispatches_kind_and_score() {
    let plain = GameVariant::Plain(PlainGuppies {
        value_one: 4,
        value_two: 4,
    });
    assert_eq!(plain.kind(), VariantKind::Plain);
    assert_eq!(plain.check_guess(Token::Same), Ok(true));
    let composite = GameVariant::Composite(Manyguppies::new());
    assert_eq!(composite.kind(), VariantKind::Plain);
    let mut spectrum = GameVariant::Spectrum(RainbowGuppies {
        color_one: Hue::Green,
        color_two: Hue::Red,
    });
    assert_eq!(spectrum.kind(), VariantKind::Spectrum);
    assert_eq!(spectrum.check_guess(Token::Farther), Ok(true));
    spectrum.refresh_second();
    assert_eq!(spectrum.kind(), VariantKind::Spectrum);
    match spectrum {
        GameVariant::Spectrum(inner) => assert_eq!(inner.color_one, Hue::Green),
        _ => unreachable!(),
    }
}

#[test]
fn tell_random_renders_both_values() {
    let plain = PlainGuppies {
        value_one: 3,
        value_two: 10,
    };
    assert_eq!(
        plain.tell_random(DifferentValues::FirstGeneratedVal),
        "This is the first value 3"
    );
    assert_eq!(
        plain.tell_random(DifferentValues::SecondGeneratedVal),
        "This is the second value 10"
    );
    let parity = OddOrEvenGuppies {
        num_one: 100,
        num_two: 0,
    };
    assert_eq!(
        parity.tell_random(DifferentValues::FirstGeneratedVal),
        "This is the first number 100"
    );
    assert_eq!(
        parity.tell_random(DifferentValues::SecondGeneratedVal),
        "This is the second number 0"
    );
    let rainbow = RainbowGuppies {
        color_one: Hue::Indigo,
        color_two: Hue::Yellow,
    };
    assert_eq!(
        rainbow.tell_random(DifferentValues::FirstGeneratedVal),
        "This is first color Indigo"
    );
    assert_eq!(
        rainbow.tell_random(DifferentValues::SecondGeneratedVal),
        "This is second color Yellow"
    );
}
