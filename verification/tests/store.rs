use project_timer::error::TimerError;
use project_timer::model::project::{clone_projects, same_projects, Project};
use project_timer::model::timer::Timer;
use project_timer::repository::{ProjectsData, Repository};

fn project(id: u32, name: &str) -> Project {
    Project { id, name: name.to_string(), timers: Vec::new() }
}

fn names(repository: &Repository) -> Vec<String> {
    repository.find_all().iter().map(|p| p.name.clone()).collect()
}

fn ids(repository: &Repository) -> Vec<u32> {
    repository.find_all().iter().map(|p| p.id).collect()
}

fn three_projects() -> Repository {
    Repository::new(
        "projects.json",
        Some(ProjectsData {
            projects: vec![project(1, "Alpha"), project(2, "Beta"), project(3, "Gamma")],
            favorites: vec![3, 9, 1],
        }),
    )
}

#[test]
fn error_keeps_its_message() {
    let error = TimerError::new("something failed");
    assert_eq!(error.details, "something failed");
}

#[test]
fn missing_file_gives_empty_store() {
    let mut repository = Repository::new("/no/such/file.json", None);
    assert!(repository.find_all().is_empty());
    assert!(repository.find_favorites().is_empty());
    assert!(!repository.has_unsaved_changes());
    assert_eq!(repository.file_name(), "/no/such/file.json");
    let data = repository.save();
    assert!(data.projects.is_empty());
    assert!(data.favorites.is_empty());
}

#[test]
fn loaded_store_holds_what_was_read() {
    let repository = three_projects();
    assert_eq!(ids(&repository), vec![1, 2, 3]);
    assert_eq!(names(&repository), vec!["Alpha", "Beta", "Gamma"]);
    assert!(!repository.has_unsaved_changes());
}

#[test]
fn load_replaces_content_and_none_keeps_it() {
    let mut repository = three_projects();
    repository.load_projects_from_file(None);
    assert_eq!(ids(&repository), vec![1, 2, 3]);
    repository.load_projects_from_file(Some(ProjectsData {
        projects: vec![project(8, "Other")],
        favorites: vec![8],
    }));
    assert_eq!(ids(&repository), vec![8]);
    assert_eq!(repository.find_favorites().len(), 1);
    assert!(!repository.has_unsaved_changes());
}

#[test]
fn save_hands_out_what_was_loaded() {
    let mut repository = Repository::new(
        "projects.json",
        Some(ProjectsData {
            projects: vec![Project {
                id: 4,
                name: "Delta".to_string(),
                timers: vec![
                    Timer { id: 1, start_time: 100, end_time: Some(160) },
                    Timer { id: 2, start_time: 200, end_time: None },
                ],
            }],
            favorites: vec![4, 77],
        }),
    );
    let data = repository.save();
    assert_eq!(data.projects.len(), 1);
    assert_eq!(data.projects[0].id, 4);
    assert_eq!(data.projects[0].name, "Delta");
    assert_eq!(data.projects[0].timers.len(), 2);
    assert_eq!(data.projects[0].timers[0].id, 1);
    assert_eq!(data.projects[0].timers[0].start_time, 100);
    assert_eq!(data.projects[0].timers[0].end_time, Some(160));
    assert_eq!(data.projects[0].timers[1].id, 2);
    assert_eq!(data.projects[0].timers[1].start_time, 200);
    assert_eq!(data.projects[0].timers[1].end_time, None);
    assert_eq!(data.favorites, vec![4, 77]);
    assert!(!repository.has_unsaved_changes());
    assert_eq!(ids(&repository), vec![4]);
}

#[test]
fn delete_removes_the_project() {
    let mut repository = three_projects();
    let result = repository.delete_project(2);
    assert!(matches!(result, Ok(true)));
    assert_eq!(ids(&repository), vec![1, 3]);
    assert_eq!(names(&repository), vec!["Alpha", "Gamma"]);
    assert!(repository.has_unsaved_changes());
}

#[test]
fn delete_of_unknown_id_fails_and_changes_nothing() {
    let mut repository = three_projects();
    let result = repository.delete_project(42);
    match result {
        Err(error) => assert_eq!(error.details, "Project with given id does not exists."),
        Ok(_) => panic!("deleting an unknown id succeeded"),
    }
    assert_eq!(ids(&repository), vec![1, 2, 3]);
    assert_eq!(names(&repository), vec!["Alpha", "Beta", "Gamma"]);
    assert!(!repository.has_unsaved_changes());
}

#[test]
fn delete_on_empty_store_fails() {
    let mut repository = Repository::new("projects.json", None);
    assert!(repository.delete_project(0).is_err());
    assert!(repository.find_all().is_empty());
}

#[test]
fn delete_removes_only_the_first_of_equal_ids() {
    let mut repository = Repository::new(
        "projects.json",
        Some(ProjectsData {
            projects: vec![project(5, "First"), project(6, "Between"), project(5, "Second")],
            favorites: Vec::new(),
        }),
    );
    assert!(repository.delete_project(5).is_ok());
    assert_eq!(names(&repository), vec!["Between", "Second"]);
}

#[test]
fn edit_replaces_the_project() {
    let mut repository = three_projects();
    let replacement = Project {
        id: 2,
        name: "Renamed".to_string(),
        timers: vec![Timer { id: 1, start_time: 5, end_time: None }],
    };
    let result = repository.edit_project(replacement);
    assert!(matches!(result, Ok(true)));
    assert_eq!(ids(&repository), vec![1, 2, 3]);
    assert_eq!(names(&repository), vec!["Alpha", "Renamed", "Gamma"]);
    assert_eq!(repository.find_all()[1].timers.len(), 1);
    assert!(repository.has_unsaved_changes());
}

#[test]
fn edit_of_unknown_id_fails_and_changes_nothing() {
    let mut repository = three_projects();
    let result = repository.edit_project(project(42, "Nobody"));
    match result {
        Err(error) => assert_eq!(error.details, "Project with given id does not exists."),
        Ok(_) => panic!("editing an unknown id succeeded"),
    }
    assert_eq!(names(&repository), vec!["Alpha", "Beta", "Gamma"]);
    assert!(!repository.has_unsaved_changes());
}

#[test]
fn add_gives_the_next_id() {
    let mut repository = three_projects();
    let result = repository.add_project("Delta".to_string());
    assert!(matches!(result, Ok(true)));
    assert_eq!(ids(&repository), vec![1, 2, 3, 4]);
    assert_eq!(names(&repository), vec!["Alpha", "Beta", "Gamma", "Delta"]);
    assert!(repository.find_all()[3].timers.is_empty());
    assert!(repository.has_unsaved_changes());
}

#[test]
fn add_to_empty_store_starts_at_one() {
    let mut repository = Repository::new("projects.json", None);
    assert!(repository.add_project("Only".to_string()).is_ok());
    assert_eq!(ids(&repository), vec![1]);
    assert!(repository.add_project("Next".to_string()).is_ok());
    assert_eq!(ids(&repository), vec![1, 2]);
}

#[test]
fn add_goes_past_the_largest_id() {
    let mut repository = Repository::new(
        "projects.json",
        Some(ProjectsData {
            projects: vec![project(40, "A"), project(7, "B")],
            favorites: Vec::new(),
        }),
    );
    assert!(repository.add_project("C".to_string()).is_ok());
    assert_eq!(ids(&repository), vec![40, 7, 41]);
}

#[test]
fn add_fails_when_the_largest_id_is_taken() {
    let mut repository = Repository::new(
        "projects.json",
        Some(ProjectsData { projects: vec![project(u32::MAX, "Last")], favorites: Vec::new() }),
    );
    match repository.add_project("More".to_string()) {
        Err(error) => assert_eq!(error.details, "No project id is left."),
        Ok(_) => panic!("a project was added without an id"),
    }
    assert_eq!(ids(&repository), vec![u32::MAX]);
    assert!(!repository.has_unsaved_changes());
}

#[test]
fn favorites_are_filtered_in_store_order() {
    let repository = three_projects();
    let favorites = repository.find_favorites();
    let favorite_ids: Vec<u32> = favorites.iter().map(|p| p.id).collect();
    assert_eq!(favorite_ids, vec![1, 3]);
}

#[test]
fn dangling_favorites_are_ignored() {
    let mut repository = three_projects();
    assert!(repository.delete_project(3).is_ok());
    let favorite_ids: Vec<u32> = repository.find_favorites().iter().map(|p| p.id).collect();
    assert_eq!(favorite_ids, vec![1]);
    let data = repository.save();
    assert_eq!(data.favorites, vec![3, 9, 1]);
}

#[test]
fn project_clone_is_equal() {
    let first = Project {
        id: 9,
        name: "Nine".to_string(),
        timers: vec![Timer { id: 3, start_time: 1, end_time: Some(2) }],
    };
    let copy = first.clone();
    assert_eq!(copy.id, 9);
    assert_eq!(copy.name, "Nine");
    assert_eq!(copy.timers.len(), 1);
    assert_eq!(copy.timers[0].end_time, Some(2));
    let copies = clone_projects(&vec![first, copy]);
    assert_eq!(copies.len(), 2);
    assert_eq!(copies[1].name, "Nine");
}

#[test]
fn get_timers_lists_all_in_order() {
    let p = Project {
        id: 1,
        name: "P".to_string(),
        timers: vec![
            Timer { id: 10, start_time: 1, end_time: Some(2) },
            Timer { id: 11, start_time: 3, end_time: None },
        ],
    };
    let timers = p.get_timers();
    assert_eq!(timers.len(), 2);
    assert_eq!(timers[0].id, 10);
    assert_eq!(timers[1].id, 11);
    assert_eq!(timers[1].end_time, None);
}

#[test]
fn projects_are_compared_by_content() {
    let a = Project {
        id: 1,
        name: "A".to_string(),
        timers: vec![Timer { id: 1, start_time: 2, end_time: Some(3) }],
    };
    assert!(a.same_as(&a.clone()));
    let mut other_name = a.clone();
    other_name.name = "B".to_string();
    assert!(!a.same_as(&other_name));
    let mut other_id = a.clone();
    other_id.id = 2;
    assert!(!a.same_as(&other_id));
    let mut other_timer = a.clone();
    other_timer.timers[0].end_time = None;
    assert!(!a.same_as(&other_timer));
    let mut more_timers = a.clone();
    more_timers.timers.push(Timer { id: 2, start_time: 5, end_time: None });
    assert!(!a.same_as(&more_timers));
    assert!(same_projects(&vec![a.clone(), other_id.clone()], &vec![a.clone(), other_id.clone()]));
    assert!(!same_projects(&vec![a.clone(), other_id.clone()], &vec![other_id.clone(), a.clone()]));
    assert!(!same_projects(&vec![a.clone()], &vec![a.clone(), a.clone()]));
    assert!(same_projects(&Vec::new(), &Vec::new()));
}

#[test]
fn timers_are_compared_by_content() {
    let t = Timer { id: 1, start_time: 2, end_time: Some(3) };
    assert!(t.same_as(&Timer { id: 1, start_time: 2, end_time: Some(3) }));
    assert!(!t.same_as(&Timer { id: 9, start_time: 2, end_time: Some(3) }));
    assert!(!t.same_as(&Timer { id: 1, start_time: 9, end_time: Some(3) }));
    assert!(!t.same_as(&Timer { id: 1, start_time: 2, end_time: Some(9) }));
    assert!(!t.same_as(&Timer { id: 1, start_time: 2, end_time: None }));
    let running = Timer { id: 1, start_time: 2, end_time: None };
    assert!(running.same_as(&running));
}
