use hypnagogic::operations::error::ProcessorError;
use hypnagogic::operations::modifiers::dmi_masking::DMIMasking;
use hypnagogic::operations::modifiers::error::InconsistentDelays;
use hypnagogic::operations::modifiers::error::InconsistentDirectional;
use hypnagogic::operations::modifiers::error::MaskingError;
use hypnagogic::operations::IconOperationConfig;
use hypnagogic::operations::InputIcon;
use hypnagogic::operations::OperationMode;
use hypnagogic::operations::OutputImage;
use hypnagogic::operations::ProcessorPayload;
use hypnagogic::sprite::Hotspot;
use hypnagogic::sprite::Icon;
use hypnagogic::sprite::IconState;
use hypnagogic::sprite::Looping;
use image::DynamicImage;
use image::GenericImage;
use image::GenericImageView;
use image::Rgba;

const CLEAR: Rgba<u8> = Rgba([0, 0, 0, 0]);

fn state(name: &str, images: Vec<DynamicImage>) -> IconState {
    IconState {
        name: name.to_string(),
        dirs: 1,
        frames: 1,
        images,
        delay: None,
        loop_flag: Looping::Indefinitely,
        rewind: false,
        movement: false,
        hotspot: None,
        unknown_settings: None,
    }
}

/// A 4 by 2 frame without a transparent pixel; `seed` tells frames apart.
fn base_frame(seed: u8) -> DynamicImage {
    let mut img = DynamicImage::new_rgba8(4, 2);
    for y in 0..2u32 {
        for x in 0..4u32 {
            img.put_pixel(x, y, Rgba([seed + x as u8, 20 + y as u8, 30, 255]));
        }
    }
    img
}

/// A 4 by 2 mask that is opaque over the left half.
fn left_half_mask() -> DynamicImage {
    let mut img = DynamicImage::new_rgba8(4, 2);
    for y in 0..2u32 {
        for x in 0..2u32 {
            img.put_pixel(x, y, Rgba([0, 0, 0, 255]));
        }
    }
    img
}

fn sheet(states: Vec<IconState>) -> Icon {
    Icon { width: 4, height: 2, states }
}

fn config(targets: &[&str]) -> DMIMasking {
    DMIMasking {
        target_states: targets.iter().map(|t| t.to_string()).collect(),
        mask_suffix: "masked".to_string(),
        unmasked_suffix: "unmasked".to_string(),
    }
}

fn run(config: &DMIMasking, icon: Icon) -> Result<Icon, ProcessorError> {
    match config.perform_operation(&InputIcon::Dmi(icon), OperationMode::Standard) {
        Ok(ProcessorPayload::Single(OutputImage::Dmi(out))) => Ok(out),
        Ok(other) => panic!("expected a sheet, got {:?}", other),
        Err(e) => Err(e),
    }
}

fn names(icon: &Icon) -> Vec<&str> {
    icon.states.iter().map(|s| s.name.as_str()).collect()
}

fn pair(name: &str, seed: u8) -> Vec<IconState> {
    vec![
        state(name, vec![base_frame(seed)]),
        state(&format!("{name}_mask"), vec![left_half_mask()]),
    ]
}

fn assert_left_cleared(frame: &DynamicImage, base: &DynamicImage) {
    assert_eq!(frame.dimensions(), (4, 2));
    for y in 0..2u32 {
        for x in 0..4u32 {
            if x < 2 {
                assert_eq!(frame.get_pixel(x, y), CLEAR);
            } else {
                assert_eq!(frame.get_pixel(x, y), base.get_pixel(x, y));
            }
        }
    }
}

fn assert_right_cleared(frame: &DynamicImage, base: &DynamicImage) {
    assert_eq!(frame.dimensions(), (4, 2));
    for y in 0..2u32 {
        for x in 0..4u32 {
            if x < 2 {
                assert_eq!(frame.get_pixel(x, y), base.get_pixel(x, y));
            } else {
                assert_eq!(frame.get_pixel(x, y), CLEAR);
            }
        }
    }
}

#[test]
fn insertion_placement() {
    let out = run(&config(&["a"]), sheet(pair("a", 10))).unwrap();
    assert_eq!(names(&out), vec!["a", "a_mask", "a_masked", "a_unmasked"]);
    assert_left_cleared(&out.states[2].images[0], &base_frame(10));
    assert_right_cleared(&out.states[3].images[0], &base_frame(10));
    assert_eq!(out.states[0], state("a", vec![base_frame(10)]));
    assert_eq!(out.states[1], state("a_mask", vec![left_half_mask()]));
    assert_eq!((out.width, out.height), (4, 2));
}

#[test]
fn pixel_complement() {
    let out = run(&config(&["a"]), sheet(pair("a", 10))).unwrap();
    let base = base_frame(10);
    let mask = left_half_mask();
    let masked = &out.states[2].images[0];
    let unmasked = &out.states[3].images[0];
    for y in 0..2u32 {
        for x in 0..4u32 {
            let alpha = mask.get_pixel(x, y).0[3];
            assert_eq!(masked.get_pixel(x, y) == CLEAR, alpha != 0);
            assert_eq!(unmasked.get_pixel(x, y) == CLEAR, alpha == 0);
            let kept_by_masked = masked.get_pixel(x, y) == base.get_pixel(x, y);
            let kept_by_unmasked = unmasked.get_pixel(x, y) == base.get_pixel(x, y);
            assert_ne!(kept_by_masked, kept_by_unmasked);
        }
    }
}

#[test]
fn any_nonzero_alpha_covers() {
    let mut mask = DynamicImage::new_rgba8(4, 2);
    mask.put_pixel(0, 0, Rgba([9, 9, 9, 1]));
    mask.put_pixel(1, 0, Rgba([255, 255, 255, 0]));
    let states = vec![state("a", vec![base_frame(10)]), state("a_mask", vec![mask])];
    let out = run(&config(&["a"]), sheet(states)).unwrap();
    let base = base_frame(10);
    let masked = &out.states[2].images[0];
    let unmasked = &out.states[3].images[0];
    assert_eq!(masked.get_pixel(0, 0), CLEAR);
    assert_eq!(unmasked.get_pixel(0, 0), base.get_pixel(0, 0));
    assert_eq!(masked.get_pixel(1, 0), base.get_pixel(1, 0));
    assert_eq!(unmasked.get_pixel(1, 0), CLEAR);
    assert_eq!(masked.get_pixel(3, 1), base.get_pixel(3, 1));
    assert_eq!(unmasked.get_pixel(3, 1), CLEAR);
}

#[test]
fn mask_without_alpha_channel_covers_everything() {
    let mask = DynamicImage::new_rgb8(4, 2);
    let states = vec![state("a", vec![base_frame(10)]), state("a_mask", vec![mask])];
    let out = run(&config(&["a"]), sheet(states)).unwrap();
    let base = base_frame(10);
    for y in 0..2u32 {
        for x in 0..4u32 {
            assert_eq!(out.states[2].images[0].get_pixel(x, y), CLEAR);
            assert_eq!(out.states[3].images[0].get_pixel(x, y), base.get_pixel(x, y));
        }
    }
}

#[test]
fn batch_validation_completeness() {
    let result = run(&config(&["a", "b", "c"]), sheet(pair("b", 10)));
    assert_eq!(
        result,
        Err(ProcessorError::MaskingError(MaskingError::NonexistantStates(
            "a, a_mask, c, c_mask".to_string()
        )))
    );
}

#[test]
fn missing_mask_alone_is_reported() {
    let states = vec![state("a", vec![base_frame(10)]), state("b_mask", vec![left_half_mask()])];
    let result = run(&config(&["a", "b"]), sheet(states));
    assert_eq!(
        result,
        Err(ProcessorError::MaskingError(MaskingError::NonexistantStates(
            "a_mask, b".to_string()
        )))
    );
}

#[test]
fn idempotent_replace() {
    let configuration = config(&["a", "b"]);
    let mut states = pair("a", 10);
    states.extend(pair("b", 50));
    let once = run(&configuration, sheet(states)).unwrap();
    assert_eq!(
        names(&once),
        vec!["a", "a_mask", "a_masked", "a_unmasked", "b_masked", "b_unmasked", "b", "b_mask"]
    );
    let twice = run(&configuration, once.clone()).unwrap();
    assert_eq!(twice.states.len(), once.states.len());
    assert_eq!(twice, once);
}

#[test]
fn shape_mismatch_rejection() {
    let mut states = pair("a", 10);
    states[0].dirs = 4;
    states[0].delay = Some(vec![1, 2]);
    states[1].delay = Some(vec![1, 2]);
    let result = run(&config(&["a"]), sheet(states));
    assert_eq!(
        result,
        Err(ProcessorError::MaskingError(MaskingError::MismatchedDirectionals(vec![
            InconsistentDirectional {
                target_name: "a".to_string(),
                mask_name: "a_mask".to_string(),
            }
        ])))
    );
}

#[test]
fn delay_mismatch_rejection() {
    let mut states = pair("a", 10);
    states[0].delay = Some(vec![1, 2]);
    states[1].delay = Some(vec![1, 3]);
    let result = run(&config(&["a"]), sheet(states));
    assert_eq!(
        result,
        Err(ProcessorError::MaskingError(MaskingError::MismatchedDelays(vec![
            InconsistentDelays {
                target_name: "a".to_string(),
                target_delays: vec![1, 2],
                mask_name: "a_mask".to_string(),
                mask_delays: vec![1, 3],
            }
        ])))
    );
}

#[test]
fn delays_on_one_side_only_mismatch() {
    let mut states = pair("a", 10);
    states[1].delay = Some(vec![]);
    let result = run(&config(&["a"]), sheet(states));
    assert_eq!(
        result,
        Err(ProcessorError::MaskingError(MaskingError::MismatchedDelays(vec![
            InconsistentDelays {
                target_name: "a".to_string(),
                target_delays: vec![],
                mask_name: "a_mask".to_string(),
                mask_delays: vec![],
            }
        ])))
    );
}

#[test]
fn delays_of_different_length_mismatch() {
    let mut states = pair("a", 10);
    states[0].delay = Some(vec![1, 2]);
    states[1].delay = Some(vec![1, 2, 3]);
    let result = run(&config(&["a"]), sheet(states));
    assert!(matches!(
        result,
        Err(ProcessorError::MaskingError(MaskingError::MismatchedDelays(_)))
    ));
}

#[test]
fn equal_delays_pass() {
    let mut states = pair("a", 10);
    states[0].delay = Some(vec![1, 2]);
    states[1].delay = Some(vec![1, 2]);
    let out = run(&config(&["a"]), sheet(states)).unwrap();
    assert_eq!(out.states[2].delay, Some(vec![1, 2]));
    assert_eq!(out.states[3].delay, Some(vec![1, 2]));
}

#[test]
fn mismatches_are_batched_over_all_pairs() {
    let mut states = pair("a", 10);
    states.extend(pair("b", 50));
    states.extend(pair("c", 90));
    states[0].dirs = 4;
    states[2].delay = Some(vec![5]);
    states[5].dirs = 8;
    let result = run(&config(&["a", "b", "c"]), sheet(states));
    assert_eq!(
        result,
        Err(ProcessorError::MaskingError(MaskingError::MismatchedDirectionals(vec![
            InconsistentDirectional {
                target_name: "a".to_string(),
                mask_name: "a_mask".to_string(),
            },
            InconsistentDirectional {
                target_name: "c".to_string(),
                mask_name: "c_mask".to_string(),
            },
        ])))
    );
}

#[test]
fn missing_states_come_before_shape_checks() {
    let mut states = pair("a", 10);
    states[0].dirs = 4;
    states[0].delay = Some(vec![7]);
    let result = run(&config(&["a", "b"]), sheet(states));
    assert_eq!(
        result,
        Err(ProcessorError::MaskingError(MaskingError::NonexistantStates(
            "b, b_mask".to_string()
        )))
    );
}

#[test]
fn unsupported_input_kind() {
    let input = InputIcon::DynamicImage(base_frame(10));
    let result = config(&["a"]).perform_operation(&input, OperationMode::Standard);
    assert_eq!(result, Err(ProcessorError::DMINotFound));
    let result = config(&[]).perform_operation(&input, OperationMode::Debug);
    assert_eq!(result, Err(ProcessorError::DMINotFound));
}

#[test]
fn no_targets_leave_the_sheet_as_it_is() {
    let out = run(&config(&[]), sheet(pair("a", 10))).unwrap();
    assert_eq!(out, sheet(pair("a", 10)));
}

#[test]
fn inserted_behind_the_later_state_of_the_pair() {
    let mut states = vec![state("a_mask", vec![left_half_mask()]), state("x", vec![])];
    states.push(state("a", vec![base_frame(10)]));
    states.push(state("y", vec![]));
    states.push(state("z", vec![]));
    let out = run(&config(&["a"]), sheet(states)).unwrap();
    assert_eq!(names(&out), vec!["a_mask", "x", "a", "a_masked", "a_unmasked", "y", "z"]);
}

#[test]
fn inserted_before_a_single_trailing_state() {
    let mut states = pair("a", 10);
    states.push(state("z", vec![]));
    let out = run(&config(&["a"]), sheet(states)).unwrap();
    assert_eq!(names(&out), vec!["a", "a_mask", "a_masked", "a_unmasked", "z"]);
}

#[test]
fn existing_derived_state_is_replaced_in_place() {
    let mut old = state("a_masked", vec![base_frame(200)]);
    old.dirs = 8;
    let states = vec![
        state("a", vec![base_frame(10)]),
        old,
        state("a_mask", vec![left_half_mask()]),
    ];
    let out = run(&config(&["a"]), sheet(states)).unwrap();
    assert_eq!(names(&out), vec!["a", "a_masked", "a_mask", "a_unmasked"]);
    assert_eq!(out.states[1].dirs, 1);
    assert_left_cleared(&out.states[1].images[0], &base_frame(10));
    assert_right_cleared(&out.states[3].images[0], &base_frame(10));
}

#[test]
fn derived_name_that_is_the_mask_name_replaces_the_mask() {
    let mut configuration = config(&["a"]);
    configuration.mask_suffix = "mask".to_string();
    let out = run(&configuration, sheet(pair("a", 10))).unwrap();
    assert_eq!(names(&out), vec!["a", "a_mask", "a_unmasked"]);
    assert_left_cleared(&out.states[1].images[0], &base_frame(10));
}

#[test]
fn later_pairs_are_placed_by_places_in_the_given_sheet() {
    let states = vec![
        state("a", vec![base_frame(10)]),
        state("a_mask", vec![left_half_mask()]),
        state("b_masked", vec![]),
        state("b", vec![base_frame(50)]),
        state("b_mask", vec![left_half_mask()]),
    ];
    let out = run(&config(&["a", "b"]), sheet(states)).unwrap();
    assert_eq!(
        names(&out),
        vec!["a", "a_mask", "b_masked", "a_unmasked", "b_masked", "b", "b_unmasked", "b_mask"]
    );
    assert_left_cleared(&out.states[2].images[0], &base_frame(50));
    assert_right_cleared(&out.states[3].images[0], &base_frame(10));
    assert_eq!(out.states[4], state("b_masked", vec![]));
    assert_right_cleared(&out.states[6].images[0], &base_frame(50));
}

#[test]
fn rerun_duplicates_where_a_derived_state_was_overwritten() {
    let states = vec![
        state("a", vec![base_frame(10)]),
        state("a_mask", vec![left_half_mask()]),
        state("b_masked", vec![]),
        state("b", vec![base_frame(50)]),
        state("b_mask", vec![left_half_mask()]),
    ];
    let configuration = config(&["a", "b"]);
    let once = run(&configuration, sheet(states)).unwrap();
    assert!(!names(&once).contains(&"a_masked"));
    let twice = run(&configuration, once.clone()).unwrap();
    assert_eq!(twice.states.len(), once.states.len() + 1);
}

#[test]
fn a_target_named_twice_is_processed_twice() {
    let out = run(&config(&["a", "a"]), sheet(pair("a", 10))).unwrap();
    assert_eq!(
        names(&out),
        vec!["a", "a_mask", "a_masked", "a_unmasked", "a_masked", "a_unmasked"]
    );
    let again = run(&config(&["a", "a"]), out.clone()).unwrap();
    assert_eq!(again.states.len(), out.states.len());
}

#[test]
fn first_state_of_a_name_is_the_one_paired() {
    let states = vec![
        state("a", vec![base_frame(10)]),
        state("a", vec![base_frame(77)]),
        state("a_mask", vec![left_half_mask()]),
    ];
    let out = run(&config(&["a"]), sheet(states)).unwrap();
    assert_eq!(names(&out), vec!["a", "a", "a_mask", "a_masked", "a_unmasked"]);
    assert_left_cleared(&out.states[3].images[0], &base_frame(10));
}

#[test]
fn derived_states_keep_what_the_base_state_holds() {
    let mut states = pair("a", 10);
    states[0].dirs = 4;
    states[1].dirs = 4;
    states[0].frames = 3;
    states[0].loop_flag = Looping::NTimes(2);
    states[0].rewind = true;
    states[0].movement = true;
    states[0].hotspot = Some(Hotspot { x: 1, y: 2 });
    states[0].unknown_settings = Some(vec![("k".to_string(), "v".to_string())]);
    states[1].frames = 9;
    states[1].hotspot = Some(Hotspot { x: 7, y: 7 });
    let out = run(&config(&["a"]), sheet(states)).unwrap();
    for derived in &out.states[2..4] {
        assert_eq!(derived.dirs, 4);
        assert_eq!(derived.frames, 3);
        assert_eq!(derived.delay, None);
        assert_eq!(derived.loop_flag, Looping::NTimes(2));
        assert!(derived.rewind);
        assert!(derived.movement);
        assert_eq!(derived.hotspot, Some(Hotspot { x: 1, y: 2 }));
        assert_eq!(derived.unknown_settings, Some(vec![("k".to_string(), "v".to_string())]));
    }
}

#[test]
fn frames_are_paired_by_position() {
    let mut second_mask = DynamicImage::new_rgba8(4, 2);
    second_mask.put_pixel(3, 1, Rgba([0, 0, 0, 128]));
    let states = vec![
        state("a", vec![base_frame(10), base_frame(60), base_frame(90)]),
        state("a_mask", vec![left_half_mask(), second_mask]),
    ];
    let out = run(&config(&["a"]), sheet(states)).unwrap();
    assert_eq!(out.states[2].images.len(), 2);
    assert_eq!(out.states[3].images.len(), 2);
    assert_left_cleared(&out.states[2].images[0], &base_frame(10));
    let base = base_frame(60);
    for y in 0..2u32 {
        for x in 0..4u32 {
            let hit = x == 3 && y == 1;
            let masked = out.states[2].images[1].get_pixel(x, y);
            let unmasked = out.states[3].images[1].get_pixel(x, y);
            assert_eq!(masked, if hit { CLEAR } else { base.get_pixel(x, y) });
            assert_eq!(unmasked, if hit { base.get_pixel(x, y) } else { CLEAR });
        }
    }
}

#[test]
fn base_frame_larger_than_the_canvas_is_refused() {
    let mut icon = sheet(pair("a", 10));
    icon.width = 3;
    let result = run(&config(&["a"]), icon);
    let expected = image::ImageError::Parameter(image::error::ParameterError::from_kind(
        image::error::ParameterErrorKind::DimensionMismatch,
    ));
    assert_eq!(result, Err(ProcessorError::ImageError(expected.to_string())));
}

#[test]
fn shape_checks_come_before_frames_are_looked_at() {
    let mut icon = sheet(pair("a", 10));
    icon.width = 3;
    icon.states[0].delay = Some(vec![1]);
    let result = run(&config(&["a"]), icon);
    assert!(matches!(
        result,
        Err(ProcessorError::MaskingError(MaskingError::MismatchedDelays(_)))
    ));
}

#[test]
fn one_frame_that_does_not_fit_fails_the_whole_run() {
    let mut states = pair("a", 10);
    states.push(state("b", vec![base_frame(50), DynamicImage::new_rgba8(4, 3)]));
    states.push(state("b_mask", vec![left_half_mask(), left_half_mask()]));
    let result = run(&config(&["a", "b"]), sheet(states));
    assert!(matches!(result, Err(ProcessorError::ImageError(_))));
}

#[test]
fn frame_without_a_mask_frame_is_not_looked_at() {
    let mut states = pair("a", 10);
    states[0].images.push(DynamicImage::new_rgba8(9, 9));
    let out = run(&config(&["a"]), sheet(states)).unwrap();
    assert_eq!(out.states[2].images.len(), 1);
}

#[test]
fn a_run_adds_one_state_for_each_derived_name_that_is_absent() {
    let fresh = run(&config(&["a"]), sheet(pair("a", 10))).unwrap();
    assert_eq!(fresh.states.len(), 2 + 2);
    let mut states = pair("a", 10);
    states.push(state("a_unmasked", vec![]));
    let half = run(&config(&["a"]), sheet(states)).unwrap();
    assert_eq!(half.states.len(), 3 + 1);
    let mut states = pair("a", 10);
    states.push(state("a_unmasked", vec![]));
    states.push(state("a_masked", vec![]));
    let full = run(&config(&["a", "a"]), sheet(states)).unwrap();
    assert_eq!(full.states.len(), 4);
    let twice = run(&config(&["a", "a"]), sheet(pair("a", 10))).unwrap();
    assert_eq!(twice.states.len(), 2 + 4);
}

#[test]
fn smaller_frames_sit_in_the_top_left_corner() {
    let mut base = DynamicImage::new_rgba8(2, 1);
    base.put_pixel(0, 0, Rgba([1, 2, 3, 4]));
    base.put_pixel(1, 0, Rgba([5, 6, 7, 8]));
    let mut mask = DynamicImage::new_rgba8(1, 1);
    mask.put_pixel(0, 0, Rgba([0, 0, 0, 255]));
    let states = vec![state("a", vec![base]), state("a_mask", vec![mask])];
    let out = run(&config(&["a"]), sheet(states)).unwrap();
    let masked = &out.states[2].images[0];
    let unmasked = &out.states[3].images[0];
    assert_eq!(masked.dimensions(), (4, 2));
    assert_eq!(unmasked.dimensions(), (4, 2));
    for y in 0..2u32 {
        for x in 0..4u32 {
            let expect_masked = if (x, y) == (1, 0) { Rgba([5, 6, 7, 8]) } else { CLEAR };
            let expect_unmasked = if (x, y) == (0, 0) {
                Rgba([1, 2, 3, 4])
            } else if (x, y) == (1, 0) {
                Rgba([5, 6, 7, 8])
            } else {
                CLEAR
            };
            assert_eq!(masked.get_pixel(x, y), expect_masked);
            assert_eq!(unmasked.get_pixel(x, y), expect_unmasked);
        }
    }
}

#[test]
fn mask_larger_than_the_canvas_counts_inside_it_only() {
    let mut mask = DynamicImage::new_rgba8(6, 3);
    for y in 0..3u32 {
        for x in 0..6u32 {
            mask.put_pixel(x, y, Rgba([0, 0, 0, 255]));
        }
    }
    let states = vec![state("a", vec![base_frame(10)]), state("a_mask", vec![mask])];
    let out = run(&config(&["a"]), sheet(states)).unwrap();
    let base = base_frame(10);
    for y in 0..2u32 {
        for x in 0..4u32 {
            assert_eq!(out.states[2].images[0].get_pixel(x, y), CLEAR);
            assert_eq!(out.states[3].images[0].get_pixel(x, y), base.get_pixel(x, y));
        }
    }
}

#[test]
fn the_given_sheet_is_not_changed() {
    let input = InputIcon::Dmi(sheet(pair("a", 10)));
    let _ = config(&["a"]).perform_operation(&input, OperationMode::Standard).unwrap();
    assert_eq!(input, InputIcon::Dmi(sheet(pair("a", 10))));
}

#[test]
fn every_configuration_is_accepted() {
    assert_eq!(config(&["a"]).verify_config(), Ok(()));
    assert_eq!(DMIMasking::default().verify_config(), Ok(()));
}

#[test]
fn default_configuration_is_empty() {
    let configuration = DMIMasking::default();
    assert!(configuration.target_states.is_empty());
    assert_eq!(configuration.mask_suffix, "");
    assert_eq!(configuration.unmasked_suffix, "");
}

#[test]
fn payload_from_icon_wraps_the_sheet() {
    let payload = ProcessorPayload::from_icon(sheet(pair("a", 10)));
    assert_eq!(payload, ProcessorPayload::Single(OutputImage::Dmi(sheet(pair("a", 10)))));
}

#[test]
fn clones_are_equal() {
    let mut icon = sheet(pair("a", 10));
    icon.states[0].delay = Some(vec![1, 2, 3]);
    icon.states[0].unknown_settings = Some(vec![("k".to_string(), "v".to_string())]);
    icon.states[1].images.push(DynamicImage::new_luma8(3, 3));
    assert_eq!(icon.clone(), icon);
    assert_eq!(icon.states[1].clone(), icon.states[1]);
}
