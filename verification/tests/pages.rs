use loyalty_core::components::qrcode_image::{qr_code_image_svg, QrCodeImageProps};
use loyalty_core::components::stamp_area::StampAreaProps;
use loyalty_core::pages::collect::{
    claim_answered, claim_endpoint, Collect, CollectEffect, CollectMsg, CollectProps,
};
use loyalty_core::pages::display::{code_endpoint, Display, DisplayMsg};
use loyalty_core::pages::stamp_card::{
    card_endpoint, reset_answered, reset_endpoint, StampCard, StampCardEffect, StampCardMsg,
    StampCardProps, REDEEM_PARAM,
};
use loyalty_core::qr_gen::CustomerQrCode;

fn collect_props() -> CollectProps {
    CollectProps { code: "ABC123".to_string() }
}

#[test]
fn collect_opens_with_its_placeholder() {
    assert_eq!(Collect::create().validation_msg(), "foo");
}

#[test]
fn collect_sends_a_claim_for_a_valid_number() {
    let mut page = Collect::create();
    let (redraw, effect) =
        page.update(&collect_props(), CollectMsg::Submit, Some("07715559999".to_string()));
    assert!(!redraw);
    match effect {
        CollectEffect::PostClaim(claim) => {
            assert_eq!(claim.id, "07715559999");
            assert_eq!(claim.code, "ABC123");
        }
        other => panic!("expected a claim, got {:?}", other),
    }
    assert_eq!(page.validation_msg(), "foo");
}

#[test]
fn collect_says_what_is_wrong_with_the_number() {
    let cases = [
        ("0771555", "Number must be 11 digits"),
        ("17715559999", "First digit must be 0"),
        ("08715559999", "Second digit must be 7"),
    ];
    for (input, message) in cases {
        let mut page = Collect::create();
        let (redraw, effect) =
            page.update(&collect_props(), CollectMsg::Submit, Some(input.to_string()));
        assert!(redraw);
        assert!(matches!(effect, CollectEffect::MarkInvalid));
        assert_eq!(page.validation_msg(), message);
    }
}

#[test]
fn collect_does_nothing_without_its_input_field() {
    let mut page = Collect::create();
    let (redraw, effect) = page.update(&collect_props(), CollectMsg::Submit, None);
    assert!(!redraw);
    assert!(matches!(effect, CollectEffect::Nothing));
}

#[test]
fn collect_follows_the_servers_answer() {
    let mut page = Collect::create();
    let (redraw, effect) = page.update(&collect_props(), CollectMsg::Claiming, None);
    assert!(!redraw);
    assert!(matches!(effect, CollectEffect::Nothing));
    let (redraw, effect) =
        page.update(&collect_props(), CollectMsg::ClaimOk("07715559999".to_string()), None);
    assert!(!redraw);
    match effect {
        CollectEffect::ShowStampCard(id) => assert_eq!(id, "07715559999"),
        other => panic!("expected the stamp card, got {:?}", other),
    }
    let (redraw, effect) = page.update(&collect_props(), CollectMsg::ClaimFail(400), None);
    assert!(!redraw);
    assert!(matches!(effect, CollectEffect::ReportError(400)));
}

#[test]
fn claim_answers_become_messages() {
    match claim_answered("07715559999".to_string(), 200) {
        CollectMsg::ClaimOk(id) => assert_eq!(id, "07715559999"),
        other => panic!("expected success, got {:?}", other),
    }
    assert!(matches!(claim_answered("x".to_string(), 400), CollectMsg::ClaimFail(400)));
    assert!(matches!(claim_answered("x".to_string(), 500), CollectMsg::ClaimFail(500)));
    assert!(matches!(claim_answered("x".to_string(), 201), CollectMsg::ClaimFail(201)));
}

#[test]
fn endpoints_are_built_from_the_base() {
    let base = "http://localhost:8000";
    assert_eq!(claim_endpoint(base), "http://localhost:8000/api/customercode/claim");
    assert_eq!(code_endpoint(base), "http://localhost:8000/api/customercode");
    assert_eq!(card_endpoint(base, "user-1"), "http://localhost:8000/api/stampcard/user-1");
    assert_eq!(
        reset_endpoint(base, "user-1"),
        "http://localhost:8000/api/stampcard/user-1/reset"
    );
}

#[test]
fn display_redraws_only_for_a_new_code() {
    let mut page = Display::create("http://localhost:8081".to_string());
    assert_eq!(page.collect_link(), None);
    assert!(!page.update(DisplayMsg::CodeReceived(String::new())));
    assert_eq!(page.collect_link(), None);
    assert!(page.update(DisplayMsg::CodeReceived("ABC123".to_string())));
    assert_eq!(page.collect_link().unwrap(), "http://localhost:8081/collect/ABC123");
    assert!(!page.update(DisplayMsg::CodeReceived("ABC123".to_string())));
    assert!(page.update(DisplayMsg::CodeReceived("XYZ789".to_string())));
    assert_eq!(page.collect_link().unwrap(), "http://localhost:8081/collect/XYZ789");
    assert!(page.update(DisplayMsg::CodeReceived(String::new())));
    assert_eq!(page.collect_link().unwrap(), "http://localhost:8081/collect/");
}

#[test]
fn stamp_card_page_shows_the_count_it_was_given() {
    let props = StampCardProps { id: "user-1".to_string() };
    let mut page = StampCard::create("/my-stamp-card/user-1".to_string(), String::new());
    assert_eq!(page.stamp_count(), 0);
    assert_eq!(page.stamp_area(1), StampAreaProps { is_stamped: false });
    let (redraw, effect) = page.update(&props, StampCardMsg::StampsReceived(3));
    assert!(redraw);
    assert!(matches!(effect, StampCardEffect::Nothing));
    assert_eq!(page.stamp_count(), 3);
    for slot in 1..=10u32 {
        assert_eq!(page.stamp_area(slot).is_stamped, slot <= 3);
    }
}

#[test]
fn stamp_card_page_asks_for_reset_and_reloads() {
    let props = StampCardProps { id: "user-1".to_string() };
    let mut page = StampCard::create("/my-stamp-card/user-1".to_string(), "?redeem=1".to_string());
    page.update(&props, StampCardMsg::StampsReceived(10));
    let (redraw, effect) = page.update(&props, StampCardMsg::StampsResetRequested);
    assert!(!redraw);
    match effect {
        StampCardEffect::RequestReset(id) => assert_eq!(id, "user-1"),
        other => panic!("expected a reset request, got {:?}", other),
    }
    let (redraw, effect) = page.update(&props, StampCardMsg::StampsResetOk);
    assert!(!redraw);
    match effect {
        StampCardEffect::Reload(path) => assert_eq!(path, "/my-stamp-card/user-1"),
        other => panic!("expected a reload, got {:?}", other),
    }
    let (redraw, effect) = page.update(&props, StampCardMsg::StampsResetErr(500));
    assert!(!redraw);
    assert!(matches!(effect, StampCardEffect::ReportError(500)));
    assert_eq!(page.stamp_count(), 10);
}

#[test]
fn stamp_card_page_redeems_only_with_the_redeem_query() {
    assert_eq!(REDEEM_PARAM, "?redeem=1");
    let page = StampCard::create("/my-stamp-card/u".to_string(), "?redeem=1".to_string());
    assert!(page.redeem_mode());
    assert_eq!(page.redeem_link(), "/my-stamp-card/u?redeem=1");
    let page = StampCard::create("/my-stamp-card/u".to_string(), String::new());
    assert!(!page.redeem_mode());
    let page = StampCard::create("/my-stamp-card/u".to_string(), "?redeem=10".to_string());
    assert!(!page.redeem_mode());
}

#[test]
fn reset_answers_become_messages() {
    assert_eq!(reset_answered(200), StampCardMsg::StampsResetOk);
    assert_eq!(reset_answered(404), StampCardMsg::StampsResetErr(404));
    assert_eq!(reset_answered(500), StampCardMsg::StampsResetErr(500));
}

#[test]
fn a_code_is_drawn_as_an_svg_picture() {
    let code = CustomerQrCode::from("ABC123".to_string());
    let svg = code.render(200, 4, "#000000", "#ffffff").unwrap();
    assert_ne!(svg, "ABC123");
    assert!(svg.starts_with("<?xml"));
    assert!(svg.ends_with("</svg>"));
    assert!(svg.contains("fill=\"#000000\""));
    assert!(svg.contains("fill=\"#ffffff\""));
    assert!(svg.contains("width=\"116\""));
    assert_eq!(svg, code.render(200, 4, "#000000", "#ffffff").unwrap());
    assert_ne!(svg, CustomerQrCode::from("ABC124".to_string()).render(200, 4, "#000000", "#ffffff").unwrap());
}

#[test]
fn a_token_too_long_for_a_symbol_is_not_drawn() {
    let code = CustomerQrCode::from("x".repeat(8000));
    assert_eq!(code.render(200, 4, "#000000", "#ffffff"), None);
}

#[test]
fn the_image_component_draws_its_link() {
    let props = QrCodeImageProps {
        link: "http://localhost:8081/collect/ABC123".to_string(),
        dim: 250,
        module_dim: 7,
    };
    let svg = qr_code_image_svg(&props).unwrap();
    assert!(svg.starts_with("<?xml"));
    assert!(svg.contains("fill=\"#ffffff\""));
    assert!(svg.contains("fill=\"#778899\""));
    let direct = CustomerQrCode::from(props.link.clone()).render(250, 7, "#ffffff", "#778899");
    assert_eq!(Some(svg), direct);
}

#[test]
fn any_token_that_fits_is_drawn() {
    let long_digits = "7".repeat(5000);
    let long_text = "x".repeat(2000);
    let tokens = [
        "",
        "0",
        "A",
        "hello world",
        "HELLO WORLD 123 $%*+-./:",
        "caf\u{e9} \u{65e5}\u{672c}\u{8a9e} \u{1f600}",
        "http://localhost:8081/my-stamp-card/07715559999?redeem=1",
        long_digits.as_str(),
        long_text.as_str(),
    ];
    for token in tokens {
        let code = CustomerQrCode::from(token.to_string());
        let svg = code.render(150, 4, "#ffffff", "#778899").unwrap();
        assert!(svg.starts_with("<?xml"));
        assert!(svg.ends_with("</svg>"));
    }
}

#[test]
fn the_largest_sizes_are_drawn() {
    let code = CustomerQrCode::from("ABC123".to_string());
    let widest = code.render(u32::MAX - 185, 1, "#000", "#fff").unwrap();
    assert!(widest.contains("width=\"29\""));
    let coarsest = code.render(0, u32::MAX / 185, "#000", "#fff").unwrap();
    assert!(coarsest.contains("width=\"673265131\""));
    let finest = code.render(0, 0, "#000", "#fff").unwrap();
    assert!(finest.contains("width=\"29\""));
    let largest = CustomerQrCode::from("x".repeat(2331));
    let svg = largest.render(0, u32::MAX / 185, "#000", "#fff").unwrap();
    assert!(svg.contains("width=\"4294967215\""));
}
