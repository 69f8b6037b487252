use toktx::enc::{ASTCBlockDimension, ASTCMode, ASTCOptions, Encoding, ETC1SOptions, UASTCOptions, UASTCQuality};
use toktx::{
    ArgList, Decimal, Filter, OutputFormat, Primaries, Swizzle, TargetType, ToKtx, TransferFunction, WMode, XY,
};

fn tokens(config: &ToKtx) -> Vec<String> {
    config.to_args().into_vec()
}

#[test]
fn default_configuration_selects_ktx2_only() {
    assert_eq!(tokens(&ToKtx::default()), vec!["--t2"]);
    assert_eq!(OutputFormat::default(), OutputFormat::KTX2);
}

#[test]
fn ktx1_output_adds_nothing() {
    let config = ToKtx { output_format: OutputFormat::KTX, ..ToKtx::default() };
    assert!(tokens(&config).is_empty());
}

#[test]
fn boolean_flag_appears_only_when_set() {
    let base = ToKtx { output_format: OutputFormat::KTX, ..ToKtx::default() };
    assert_eq!(tokens(&base).len(), 0);
    let set = ToKtx { cubemap: true, ..base.clone() };
    assert_eq!(tokens(&set), vec!["--cubemap"]);
    let renamed = ToKtx { no_metadata: true, normalise: true, ..base };
    assert_eq!(tokens(&renamed), vec!["--nometadata", "--normalize"]);
}

#[test]
fn uastc_fastest_scenario_arguments() {
    let config = ToKtx {
        two_dee: true,
        output_format: OutputFormat::KTX2,
        encoding: Some(Encoding::UASTC(UASTCOptions { quality: Some(UASTCQuality::Fastest), ..UASTCOptions::default() })),
        assign_oetf: Some(TransferFunction::Srgb),
        ..ToKtx::default()
    };
    assert_eq!(
        tokens(&config),
        vec!["--2d", "--assign_oetf", "srgb", "--t2", "--encode", "uastc", "--uastc_quality", "0"]
    );
}

#[test]
fn every_option_in_declaration_order() {
    let config = ToKtx {
        two_dee: true,
        auto_mipmap: true,
        cubemap: true,
        depth: Some(4),
        genmipmap: true,
        filter: Some(Filter::Lanczos4),
        fscale: Decimal::parse("1.5"),
        wmode: Some(WMode::Clamp),
        layers: Some(2),
        levels: Some(3),
        mipmap: true,
        no_metadata: true,
        no_warn: true,
        upper_left_maps_to_s0t0: true,
        lower_left_maps_to_s0t0: true,
        assign_oetf: Some(TransferFunction::Linear),
        assign_primaries: Some(Primaries::Srgb),
        convert_oetf: Some(TransferFunction::Srgb),
        swizzle: Some(Swizzle::parse("rgb1").unwrap()),
        target_type: Some(TargetType::RGB),
        resize: Some(XY(256, 128)),
        scale: Decimal::parse("0.5"),
        output_format: OutputFormat::KTX2,
        encoding: Some(Encoding::astc()),
        input_swizzle: Some(Swizzle::parse("bgra").unwrap()),
        normal_mode: true,
        normalise: true,
        no_sse: true,
        zcmp: Some(18),
        threads: Some(8),
        path_to_toktx: Some("/opt/bin/toktx".to_string()),
    };
    assert_eq!(
        tokens(&config),
        vec![
            "--2d", "--automipmap", "--cubemap", "--depth", "4", "--genmipmap", "--filter", "lanczos4",
            "--fscale", "1.5", "--wmode", "clamp", "--layers", "2", "--levels", "3", "--mipmap",
            "--nometadata", "--nowarn", "--upper_left_maps_to_s0t0", "--lower_left_maps_to_s0t0",
            "--assign_oetf", "linear", "--assign_primaries", "srgb", "--convert_oetf", "srgb",
            "--swizzle", "rgb1", "--target_type", "@c RGB", "--resize", "256x128", "--scale", "0.5",
            "--t2", "--encode", "astc", "--input_swizzle", "bgra", "--normal_mode", "--normalize",
            "--no_sse", "--zcmp", "18", "--threads", "8",
        ]
    );
}

#[test]
fn changing_one_option_keeps_the_others_in_place() {
    let a = ToKtx { two_dee: true, depth: Some(2), zcmp: Some(3), ..ToKtx::default() };
    let b = ToKtx { depth: Some(300), ..a.clone() };
    assert_eq!(tokens(&a), vec!["--2d", "--depth", "2", "--t2", "--zcmp", "3"]);
    assert_eq!(tokens(&b), vec!["--2d", "--depth", "300", "--t2", "--zcmp", "3"]);
    let c = ToKtx { depth: None, ..a };
    assert_eq!(tokens(&c), vec!["--2d", "--t2", "--zcmp", "3"]);
}

#[test]
fn rendering_twice_gives_the_same_tokens() {
    let config = ToKtx {
        encoding: Some(Encoding::etc1s()),
        swizzle: Some(Swizzle::parse("a001").unwrap()),
        ..ToKtx::default()
    };
    assert_eq!(tokens(&config), tokens(&config.clone()));
    assert_eq!(tokens(&config), tokens(&config));
}

#[test]
fn astc_options_in_order() {
    let options = ASTCOptions {
        block_dimension: Some(ASTCBlockDimension::XY(XY(6, 6))),
        mode: Some(ASTCMode::Ldr),
        quality: Some(ASTCOptions::QUALITY_THOROUGH),
        perceptual: true,
    };
    let mut args = ArgList::new();
    Encoding::ASTC(options).add_to("--encode", &mut args);
    assert_eq!(
        args.into_vec(),
        vec!["--encode", "astc", "--astc_blk_d", "6x6", "--astc_mode", "ldr", "--astc_quality", "98", "--astc_perceptual"]
    );
}

#[test]
fn etc1s_options_in_order() {
    let options = ETC1SOptions {
        compression_level: Decimal::parse("2"),
        quality_level: Some(128),
        max_endpoints: Some(16128),
        endpoint_rdo_threshold: Decimal::parse("1.25"),
        max_selectors: Some(1),
        selector_rdo_threshold: Decimal::parse("3.0"),
        no_endpoint_rdo: true,
        no_selector_rdo: true,
    };
    let mut args = ArgList::new();
    options.add_unnamed_to(&mut args);
    assert_eq!(
        args.into_vec(),
        vec![
            "--clevel", "2", "--qlevel", "128", "--max_endpoints", "16128", "--endpoint_rdo_threshold", "1.25",
            "--max_selectors", "1", "--selector_rdo_threshold", "3.0", "--no_endpoint_rdo", "--no_selector_rdo",
        ]
    );
}

#[test]
fn uastc_options_in_order() {
    let options = UASTCOptions {
        quality: Some(UASTCQuality::VerySlow),
        rdo_lambda: Decimal::parse("0.25"),
        rdo_dictionary_size: Some(4096),
        rdo_block_error_scale: Decimal::parse("10"),
        rdo_std_dev: Decimal::parse("18.5"),
        rdo_f: true,
        rdo_no_multithreading: true,
    };
    let mut args = ArgList::new();
    Encoding::UASTC(options).add_unnamed_to(&mut args);
    assert_eq!(
        args.into_vec(),
        vec![
            "--uastc_quality", "4", "--uastc_rdo_l", "0.25", "--uastc_rdo_d", "4096", "--uastc_rdo_b", "10",
            "--uastc_rdo_s", "18.5", "--uastc_rdo_f", "--uastc_rdo_m",
        ]
    );
}

#[test]
fn default_encodings_carry_only_their_name() {
    for (encoding, name) in [(Encoding::astc(), "astc"), (Encoding::etc1s(), "etc1s"), (Encoding::uastc(), "uastc")] {
        let mut args = ArgList::new();
        encoding.add_to("--encode", &mut args);
        assert_eq!(args.len(), 2);
        assert_eq!(args.get(1), name);
        assert_eq!(encoding.as_str(), name);
    }
}

#[test]
fn arg_list_keeps_insertion_order() {
    let mut args = ArgList::new();
    args.push_str("a");
    args.push("b".to_string());
    args.push_str("");
    assert_eq!(args.len(), 3);
    assert_eq!(args.get(0), "a");
    assert_eq!(args.into_vec(), vec!["a", "b", ""]);
}
