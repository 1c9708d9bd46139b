use mirador::layout::{distribute, proportional};
use mirador::resize::{neighbour_of, resize, transfer, MIN_WEIGHT};

#[test]
fn space_is_split_by_weight_when_nobody_declares_a_limit() {
    assert_eq!(distribute(100, &vec![50, 50], &vec![None, None]), vec![50, 50]);
    assert_eq!(distribute(100, &vec![25, 75], &vec![None, None]), vec![25, 75]);
}

#[test]
fn every_cell_is_allocated_however_the_weights_divide() {
    for total in [1u16, 7, 23, 80, 81, 199, 200] {
        for weights in [vec![1u16, 1, 1], vec![34, 33, 33], vec![1, 2, 7]] {
            let maxima = vec![None; weights.len()];
            let sizes = distribute(total, &weights, &maxima);
            assert_eq!(
                sizes.iter().sum::<u16>(),
                total,
                "{total} across {weights:?} gave {sizes:?}"
            );
        }
    }
}

#[test]
fn a_panel_that_cannot_use_more_space_hands_it_to_one_that_can() {
    let sizes = distribute(100, &vec![50, 50], &vec![Some(30), None]);
    assert_eq!(sizes, vec![30, 70], "the surplus must move sideways");
    assert_eq!(sizes.iter().sum::<u16>(), 100);
}

#[test]
fn surplus_from_several_bounded_panels_lands_on_the_one_that_can_grow() {
    let sizes = distribute(120, &vec![40, 40, 40], &vec![Some(20), Some(20), None]);
    assert_eq!(sizes, vec![20, 20, 80]);
}

#[test]
fn surplus_is_shared_between_takers_in_proportion_to_their_weights() {
    let sizes = distribute(120, &vec![60, 20, 40], &vec![Some(30), None, None]);
    assert_eq!(sizes.iter().sum::<u16>(), 120);
    assert_eq!(sizes[0], 30, "the bounded one is capped");
    assert!(sizes[2] > sizes[1], "the heavier taker gets more of it: {sizes:?}");
}

#[test]
fn a_row_of_entirely_bounded_panels_still_covers_its_full_width() {
    let sizes = distribute(200, &vec![50, 50], &vec![Some(30), Some(30)]);
    assert_eq!(sizes.iter().sum::<u16>(), 200, "no gap may be left: {sizes:?}");
    assert_eq!(sizes, vec![100, 100], "and the overshoot is shared");
}

#[test]
fn a_row_too_wide_for_its_maxima_shares_the_overshoot() {
    let weights = vec![26u16, 34, 40];
    let maxima = vec![Some(162u16), Some(47), Some(51)];
    let ceiling: u16 = maxima.iter().map(|m| m.unwrap()).sum();

    for total in (20u16..=1000).step_by(7) {
        let sizes = distribute(total, &weights, &maxima);

        assert_eq!(
            sizes.iter().map(|s| u32::from(*s)).sum::<u32>(),
            u32::from(total),
            "the row must cover its width exactly at {total}: {sizes:?}"
        );

        if total <= ceiling {
            for i in 0..3 {
                assert!(
                    sizes[i] <= maxima[i].unwrap(),
                    "at {total}: slot {i} exceeded its maximum with room to spare — {sizes:?} against {maxima:?}"
                );
            }
            continue;
        }

        let excess: Vec<u16> = (0..3).map(|i| sizes[i] - maxima[i].unwrap()).collect();
        let want = proportional(total - ceiling, &weights);
        assert_eq!(
            excess, want,
            "at {total}: the overshoot is not shared — {sizes:?}, excess {excess:?}, expected {want:?}"
        );
    }
}

#[test]
fn a_wide_terminal_does_not_park_the_surplus_on_one_panel() {
    let sizes = distribute(400, &vec![26, 34, 40], &vec![Some(162), Some(47), Some(51)]);
    assert_eq!(sizes.iter().sum::<u16>(), 400);
    assert!(sizes[0] < 250, "the clock took the whole surplus again: {sizes:?}");
    assert!(
        sizes[2] > 51,
        "the panel that could have used the space got none of it: {sizes:?}"
    );
}

#[test]
fn a_limit_larger_than_the_space_available_changes_nothing() {
    let sizes = distribute(40, &vec![50, 50], &vec![Some(500), None]);
    assert_eq!(sizes, vec![20, 20], "a limit nobody reaches is inert");
}

#[test]
fn degenerate_distributions_do_not_panic() {
    assert_eq!(distribute(0, &vec![1, 1], &vec![None, None]), vec![0, 0]);
    assert!(distribute(10, &vec![], &vec![]).is_empty());
    assert_eq!(
        distribute(10, &vec![0, 0], &vec![None, None]).iter().sum::<u16>(),
        10
    );
    assert_eq!(
        distribute(1, &vec![1, 1, 1], &vec![None; 3]).iter().sum::<u16>(),
        1
    );
}

#[test]
fn a_zero_weight_counts_as_one() {
    assert_eq!(proportional(10, &vec![0, 0]), vec![5, 5]);
    assert_eq!(distribute(9, &vec![0, 2], &vec![None, None]), vec![3, 6]);
}

#[test]
fn proportional_split_gives_the_remainder_to_the_largest_fractions() {
    assert_eq!(proportional(10, &vec![1, 1, 1]), vec![4, 3, 3]);
    assert_eq!(proportional(7, &vec![1, 2, 4]), vec![1, 2, 4]);
    assert!(proportional(5, &vec![]).is_empty());
}

// The weights of the two-row layout with two panels in the first row, all on
// a 100 scale: widths [50, 50] in the first row, heights [50, 50].

#[test]
fn widening_a_panel_narrows_its_neighbour_and_holds_the_total() {
    let mut widths = vec![50u16, 50];
    let before: u16 = widths.iter().sum();
    assert!(resize(&mut widths, 0, true));
    assert!(widths[0] > 50, "focused panel must grow: {widths:?}");
    assert!(widths[1] < 50, "its neighbour must give the space up");
    assert_eq!(
        widths.iter().sum::<u16>(),
        before,
        "the row total must not drift, or every panel reflows"
    );
}

#[test]
fn narrowing_is_the_exact_inverse_of_widening() {
    let mut widths = vec![50u16, 50];
    let before = widths.clone();
    assert!(resize(&mut widths, 0, true));
    assert!(resize(&mut widths, 0, false));
    assert_eq!(widths, before);
}

#[test]
fn the_last_panel_in_a_row_borrows_from_the_one_before_it() {
    let mut widths = vec![50u16, 50];
    assert!(resize(&mut widths, 1, true));
    assert!(widths[1] > 50, "the last panel must still be able to grow");
    assert!(widths[0] < 50);
}

#[test]
fn a_panel_alone_in_its_row_cannot_be_resized_horizontally() {
    let mut widths = vec![100u16];
    assert!(!resize(&mut widths, 0, true));
    assert!(!resize(&mut widths, 0, false));
    assert_eq!(widths, vec![100]);
}

#[test]
fn resizing_height_trades_between_rows() {
    let mut heights = vec![50u16, 50];
    let before: u16 = heights.iter().sum();
    assert!(resize(&mut heights, 0, true));
    assert!(heights[0] > 50 && heights[1] < 50, "{heights:?}");
    assert_eq!(heights.iter().sum::<u16>(), before);
}

#[test]
fn a_panel_can_never_be_squeezed_out_of_existence() {
    let mut widths = vec![50u16, 50];
    for _ in 0..500 {
        resize(&mut widths, 0, true);
    }
    assert!(
        widths[1] >= MIN_WEIGHT,
        "a panel squeezed to nothing can never be focused to get its space back: {widths:?}"
    );
    assert_eq!(widths.iter().sum::<u16>(), 100, "total still holds");
}

#[test]
fn a_transfer_moves_a_fiftieth_of_the_total() {
    let mut weights = vec![100u16, 100, 100];
    assert!(transfer(&mut weights, 2, 0));
    assert_eq!(weights, vec![94, 100, 106]);
    let mut weights = vec![3u16, 3];
    assert!(transfer(&mut weights, 0, 1));
    assert_eq!(weights, vec![4, 2]);
}

#[test]
fn a_donor_at_the_minimum_gives_nothing() {
    let mut weights = vec![5u16, 1];
    assert!(!transfer(&mut weights, 0, 1));
    assert_eq!(weights, vec![5, 1]);
    let mut weights = vec![5u16, 0];
    assert!(!transfer(&mut weights, 0, 1));
    assert!(!transfer(&mut weights, 0, 7), "a missing donor moves nothing");
    assert_eq!(weights, vec![5, 0]);
}

#[test]
fn the_step_is_cut_to_what_the_donor_can_spare() {
    let mut weights = vec![100u16, 2];
    assert!(resize(&mut weights, 0, true));
    assert_eq!(weights, vec![101, 1]);
}

#[test]
fn the_neighbour_is_the_next_one_or_the_one_before_the_last() {
    assert_eq!(neighbour_of(0, 3), Some(1));
    assert_eq!(neighbour_of(2, 3), Some(1));
    assert_eq!(neighbour_of(0, 1), None);
    assert_eq!(neighbour_of(0, 0), None);
}
