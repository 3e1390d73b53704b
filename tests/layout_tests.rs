use departure::config::{ActionConfig, Config, LayoutConfig};
use departure::layout::{grid_groups, linear_groups, plan_layout, Orientation};

fn actions(n: usize) -> Vec<ActionConfig> {
    (0..n)
        .map(|i| ActionConfig {
            name: format!("a{}", i),
            command: "true".to_string(),
            icon: "x".to_string(),
            keybind: None,
            confirm: false,
            danger: false,
        })
        .collect()
}

fn layout(kind: &str, columns: Option<u32>) -> LayoutConfig {
    let mut l = LayoutConfig::default();
    l.layout_type = kind.to_string();
    l.columns = columns;
    l
}

#[test]
fn grid_of_seven_in_three_columns() {
    let plan = plan_layout(&actions(7), &layout("grid", Some(3)));
    let sizes: Vec<usize> = plan.groups.iter().map(|g| g.len()).collect();
    assert_eq!(sizes, vec![3, 3, 1]);
    let flat: Vec<usize> = plan.groups.concat();
    assert_eq!(flat, (0..7).collect::<Vec<usize>>());
    assert_eq!(plan.orientation, Orientation::Horizontal);
    assert!(plan.grid);
}

#[test]
fn grid_defaults_to_three_columns_and_at_least_one() {
    let plan = plan_layout(&actions(4), &layout("grid", None));
    assert_eq!(plan.groups, vec![vec![0, 1, 2], vec![3]]);
    let plan = plan_layout(&actions(3), &layout("grid", Some(0)));
    assert_eq!(plan.groups, vec![vec![0], vec![1], vec![2]]);
    assert!(grid_groups(0, 4).is_empty());
    assert_eq!(grid_groups(6, 2), vec![vec![0, 1], vec![2, 3], vec![4, 5]]);
}

#[test]
fn linear_layouts_keep_one_group() {
    let plan = plan_layout(&actions(5), &layout("vertical", Some(2)));
    assert_eq!(plan.orientation, Orientation::Vertical);
    assert_eq!(plan.groups, vec![vec![0, 1, 2, 3, 4]]);
    assert!(!plan.grid);
    let plan = plan_layout(&actions(2), &layout("diagonal", None));
    assert_eq!(plan.orientation, Orientation::Horizontal);
    assert_eq!(plan.groups, vec![vec![0, 1]]);
    assert_eq!(linear_groups(0), vec![Vec::<usize>::new()]);
}

#[test]
fn default_config_plan() {
    let config = Config::default();
    let plan = plan_layout(&config.actions, &config.layout);
    assert_eq!(plan.groups, vec![vec![0, 1, 2, 3, 4, 5]]);
}
