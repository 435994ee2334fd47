use musix::player::Player;
use musix::score::fuzzy_match_score;
use musix::score::SCORE_EXACT;
use musix::score::SCORE_PREFIX;
use musix::score::SCORE_SCALE;
use musix::score::SCORE_SUBSTRING;

fn chars(s: &str) -> Vec<char> {
    s.chars().collect()
}

fn catalog(names: &[&str]) -> Vec<Vec<char>> {
    names.iter().map(|n| n.chars().collect()).collect()
}

#[test]
fn score_prefix_substring_case() {
    // "Moonlight Sonata" against query "moon", case-folded: a substring at
    // the start scores 1.5 * 1.2 = 1.8.
    let s = fuzzy_match_score(&chars("moon"), &chars("moonlight sonata"));
    assert_eq!(s, SCORE_PREFIX);
    assert_eq!(s, 1800000);
}

#[test]
fn score_exact_match_case() {
    let s = fuzzy_match_score(&chars("interlude"), &chars("interlude"));
    assert_eq!(s, SCORE_EXACT);
    assert_eq!(s, 2400000);
}

#[test]
fn score_mid_substring_case() {
    let s = fuzzy_match_score(&chars("lude"), &chars("interlude"));
    assert_eq!(s, SCORE_SUBSTRING);
    assert_eq!(s, 1500000);
}

#[test]
fn score_subsequence_case() {
    // "iud" against "interlude": greedy walk matches i, u, d at positions
    // 0, 6, 7, so the score is (1 + 1/7 + 1/8) / 3 in the fixed-point scale:
    // (1000000 + 142857 + 125000) / 3 = 422619.
    let s = fuzzy_match_score(&chars("iud"), &chars("interlude"));
    assert_eq!(s, 422619);
}

#[test]
fn score_no_subsequence_is_zero() {
    let s = fuzzy_match_score(&chars("xz"), &chars("allegro"));
    assert_eq!(s, 0);
}

#[test]
fn score_empty_query_is_one() {
    let s = fuzzy_match_score(&chars(""), &chars("anything"));
    assert_eq!(s, SCORE_SCALE);
}

#[test]
fn score_unmatched_tail_is_zero() {
    // Only a full consumption of the query counts as a subsequence match.
    let s = fuzzy_match_score(&chars("alq"), &chars("allegro"));
    assert_eq!(s, 0);
}

#[test]
fn search_is_case_insensitive() {
    let mut p = Player::new(catalog(&["Moonlight Sonata", "Interlude", "Allegro"]));
    p.fuzzy_search(&chars("moon"));
    assert_eq!(p.filtered_songs, vec![0]);
    assert_eq!(p.selected_index, 0);
    p.fuzzy_search(&chars("IUD"));
    assert_eq!(p.filtered_songs, vec![1]);
    assert_eq!(p.selected_index, 1);
}

#[test]
fn search_ranks_tiers_and_keeps_catalog_order_on_ties() {
    let mut p = Player::new(catalog(&["Interlude", "lude", "ludex"]));
    p.fuzzy_search(&chars("lude"));
    // exact (2.4) before prefix (1.8) before mid-string substring (1.5)
    assert_eq!(p.filtered_songs, vec![1, 2, 0]);

    let mut p = Player::new(catalog(&["lude one", "lude two"]));
    p.fuzzy_search(&chars("lude"));
    assert_eq!(p.filtered_songs, vec![0, 1]);
}

#[test]
fn search_with_no_match_leaves_selection() {
    let mut p = Player::new(catalog(&["Alpha", "Beta"]));
    p.move_selection(1);
    p.fuzzy_search(&chars("xz"));
    assert_eq!(p.filtered_songs, Vec::<usize>::new());
    assert_eq!(p.selected_index, 1);
}

#[test]
fn empty_query_matches_full_catalog_in_order() {
    let mut p = Player::new(catalog(&["Gamma", "Beta", "Alpha"]));
    p.move_selection(1);
    p.enter_search_mode();
    assert!(p.search_mode);
    assert_eq!(p.search_query, Vec::<char>::new());
    assert_eq!(p.filtered_songs, vec![0, 1, 2]);
    assert_eq!(p.selected_index, 0);
}

#[test]
fn exit_search_restores_catalog_and_keeps_selection() {
    let mut p = Player::new(catalog(&["Moonlight Sonata", "Interlude", "Allegro"]));
    p.enter_search_mode();
    p.set_query(chars("inter"));
    assert_eq!(p.filtered_songs, vec![1]);
    assert_eq!(p.selected_index, 1);
    p.exit_search_mode();
    assert!(!p.search_mode);
    assert_eq!(p.filtered_songs, vec![0, 1, 2]);
    assert_eq!(p.selected_index, 1);
    assert_eq!(p.search_query, Vec::<char>::new());
}

#[test]
fn query_edits_recompute_matches() {
    let mut p = Player::new(catalog(&["Moonlight Sonata", "Interlude", "Allegro"]));
    p.enter_search_mode();
    p.append_search_char('l');
    // "l" is a substring of all three names, a tie kept in catalog order
    assert_eq!(p.filtered_songs, vec![0, 1, 2]);
    p.append_search_char('l');
    // "ll" only occurs in "Allegro"; the others have a single 'l'
    assert_eq!(p.filtered_songs, vec![2]);
    p.append_search_char('q');
    assert_eq!(p.filtered_songs, Vec::<usize>::new());
    p.backspace_search();
    assert_eq!(p.search_query, chars("ll"));
    assert_eq!(p.filtered_songs, vec![2]);
    p.backspace_search();
    p.backspace_search();
    assert_eq!(p.search_query, Vec::<char>::new());
    p.backspace_search();
    assert_eq!(p.search_query, Vec::<char>::new());
    assert_eq!(p.filtered_songs, vec![0, 1, 2]);
}

#[test]
fn move_selection_in_search_wraps_through_matches() {
    let mut p = Player::new(catalog(&["Alpha", "Beta", "Gamma", "Alto"]));
    p.enter_search_mode();
    p.set_query(chars("al"));
    // "Alpha" and "Alto" are prefix matches, catalog order on the tie
    assert_eq!(p.filtered_songs, vec![0, 3]);
    assert_eq!(p.selected_index, 0);
    p.move_selection_in_search(1);
    assert_eq!(p.selected_index, 3);
    p.move_selection_in_search(1);
    assert_eq!(p.selected_index, 0);
    p.move_selection_in_search(-1);
    assert_eq!(p.selected_index, 3);
    p.move_selection_in_search(-1);
    assert_eq!(p.selected_index, 0);
}

#[test]
fn move_selection_in_search_from_outside_matches_starts_at_top() {
    let mut p = Player::new(catalog(&["Alpha", "Alto", "Beta"]));
    p.fuzzy_search(&chars("al"));
    assert_eq!(p.filtered_songs, vec![0, 1]);
    // a selection outside the match list is walked as if at its top
    p.selected_index = 2;
    p.move_selection_in_search(1);
    assert_eq!(p.selected_index, 1);
    p.selected_index = 2;
    p.move_selection_in_search(0);
    assert_eq!(p.selected_index, 0);
    p.move_selection_in_search(0);
    assert_eq!(p.selected_index, 0);
}

#[test]
fn jump_to_first_and_last_follow_display_list() {
    let mut p = Player::new(catalog(&["Moonlight Sonata", "Interlude", "Allegro"]));
    p.move_selection(1);
    p.jump_to_last();
    assert_eq!(p.selected_index, 2);
    p.jump_to_first();
    assert_eq!(p.selected_index, 0);
    p.enter_search_mode();
    p.set_query(chars("l"));
    let first = p.filtered_songs[0];
    let last = p.filtered_songs[p.filtered_songs.len() - 1];
    p.jump_to_last();
    assert_eq!(p.selected_index, last);
    p.jump_to_first();
    assert_eq!(p.selected_index, first);
    let mut empty = Player::new(Vec::new());
    empty.jump_to_first();
    empty.jump_to_last();
    assert_eq!(empty.selected_index, 0);
}

#[test]
fn display_songs_follow_search_mode() {
    let mut p = Player::new(catalog(&["Moonlight Sonata", "Interlude", "Allegro"]));
    assert_eq!(p.get_display_songs(), vec![0, 1, 2]);
    p.enter_search_mode();
    p.set_query(chars("inter"));
    assert_eq!(p.get_display_songs(), vec![1]);
    p.exit_search_mode();
    assert_eq!(p.get_display_songs(), vec![0, 1, 2]);
}
