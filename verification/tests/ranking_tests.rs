use cmddeck::model::{find_command, CmdEntry};
use cmddeck::ranking::{command_score, order_by_score, rank_commands, search_text_of};
use cmddeck::text::confirmation_accepted;

fn entry(name: &str, favorite: bool) -> CmdEntry {
    CmdEntry {
        name: name.to_string(),
        display_name: None,
        description: None,
        command: format!("echo {}", name),
        category: None,
        favorite,
        confirmation_required: false,
        working_directory: None,
    }
}

#[test]
fn order_by_score_sorts_descending_and_keeps_ties_in_order() {
    let scores = vec![Some(5), None, Some(7), Some(5), Some(-3)];
    assert_eq!(order_by_score(&scores), vec![2, 0, 3, 4]);
}

#[test]
fn order_by_score_of_nothing_is_empty() {
    assert_eq!(order_by_score(&vec![]), Vec::<usize>::new());
    assert_eq!(order_by_score(&vec![None, None]), Vec::<usize>::new());
}

#[test]
fn idle_scores_favor_favorites() {
    assert_eq!(command_score(&entry("a", true), ""), Some(1000));
    assert_eq!(command_score(&entry("a", false), ""), Some(0));
}

#[test]
fn query_scores_add_favorite_bonus() {
    let plain = command_score(&entry("deploy", false), "dep").unwrap();
    let fav = command_score(&entry("deploy", true), "dep").unwrap();
    assert_eq!(fav - plain, 50);
}

#[test]
fn query_that_is_not_a_subsequence_is_filtered_out() {
    assert_eq!(command_score(&entry("deploy", false), "xyz"), None);
    assert!(command_score(&entry("deploy", false), "dpy").is_some());
}

#[test]
fn smart_case_respects_capitals_in_the_query() {
    assert!(command_score(&entry("deploy", false), "DEP").is_none());
    assert!(command_score(&entry("Deploy", false), "dep").is_some());
}

#[test]
fn search_text_joins_the_fields_with_spaces() {
    let mut e = entry("ssh", false);
    e.description = Some("log in".to_string());
    e.category = Some("net".to_string());
    assert_eq!(search_text_of(&e), "ssh  log in net");
}

#[test]
fn description_and_category_are_searched() {
    let mut e = entry("a", false);
    e.category = Some("network".to_string());
    assert!(command_score(&e, "netw").is_some());
    let mut d = entry("b", false);
    d.description = Some("restart the database".to_string());
    assert!(command_score(&d, "datab").is_some());
}

#[test]
fn empty_query_lists_everything_favorites_first() {
    let cmds = vec![entry("a", false), entry("b", true), entry("c", false), entry("d", true)];
    assert_eq!(rank_commands(&cmds, ""), vec![1, 3, 0, 2]);
}

#[test]
fn query_lists_only_matches() {
    let cmds = vec![entry("build", false), entry("test", false), entry("bump", false)];
    let order = rank_commands(&cmds, "bu");
    assert!(order.contains(&0));
    assert!(order.contains(&2));
    assert!(!order.contains(&1));
    assert_eq!(order.len(), 2);
}

#[test]
fn find_command_finds_the_first_by_name() {
    let cmds = vec![entry("a", false), entry("b", false), entry("b", true)];
    assert_eq!(find_command(&cmds, "b"), Some(1));
    assert_eq!(find_command(&cmds, "c"), None);
    assert_eq!(find_command(&[].to_vec(), "a"), None);
}

#[test]
fn confirmation_wants_a_lone_y() {
    assert!(confirmation_accepted("y\n"));
    assert!(confirmation_accepted("  Y "));
    assert!(!confirmation_accepted("yes"));
    assert!(!confirmation_accepted("n"));
    assert!(!confirmation_accepted(""));
}


#[test]
fn ranking_is_the_same_every_time() {
    let cmds = vec![entry("gitpush", false), entry("gitpull", true), entry("grep", false), entry("top", false)];
    let first = rank_commands(&cmds, "gp");
    assert_eq!(rank_commands(&cmds, "gp"), first);
    assert_eq!(first[0], 1);
    let scores: Vec<Option<i64>> = cmds.iter().map(|c| command_score(c, "gp")).collect();
    assert_eq!(order_by_score(&scores), first);
}

#[test]
fn equal_matches_list_the_favorite_first() {
    let cmds = vec![entry("deploy", false), entry("deploy", true)];
    assert_eq!(rank_commands(&cmds, "dep"), vec![1, 0]);
}
