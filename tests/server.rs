use media_jobs::error_responses::HttpErrorJson;
use media_jobs::folder_dance::generate_random_string;
use media_jobs::job_manager::{JobTable, ResponseFromAppToServer};
use media_jobs::run_app::RunApp;

#[test]
fn error_bodies() {
    let e = HttpErrorJson::bad_multipart(3);
    assert_eq!(e.code, 422);
    assert_eq!(e.message, "Unable to read file at index 3. Please check if the file exists and try again.");
    let e = HttpErrorJson::unimplemented(Some("Cannot process multiple files for the moment."));
    assert_eq!(e.code, 501);
    assert_eq!(e.message, "Process not yet implemented: Cannot process multiple files for the moment.");
    let e = HttpErrorJson::unimplemented(None);
    assert_eq!(e.message, "Process not yet implemented");
    let e = HttpErrorJson::internal_server_error(None);
    assert_eq!((e.code, e.message.as_str()), (500, "Internal server error"));
    let e = HttpErrorJson::internal_server_error(Some("disk"));
    assert_eq!(e.message, "Internal server error: disk");
    let e = HttpErrorJson::bad_request("no".to_string());
    assert_eq!((e.code, e.message.as_str()), (400, "no"));
}

#[test]
fn random_names_are_sixteen_alphanumerics() {
    let a = generate_random_string();
    let b = generate_random_string();
    assert_eq!(a.chars().count(), 16);
    assert!(a.chars().all(|c| c.is_ascii_alphanumeric()));
    assert_ne!(a, b);
}

#[test]
fn job_table_rules() {
    let mut t: JobTable<&str> = JobTable::new();
    assert!(matches!(t.add_job(7, "a"), ResponseFromAppToServer::Acknowledged));
    assert!(t.contains(7));
    assert!(matches!(t.delete_job(8, true, true), ResponseFromAppToServer::NoSuchJob(8)));
    assert!(matches!(t.delete_job(7, false, false), ResponseFromAppToServer::DeleteRequestIgnored(7)));
    assert!(t.contains(7));
    assert!(matches!(t.delete_job(7, true, false), ResponseFromAppToServer::Deleted));
    assert!(!t.contains(7));
    t.add_job(9, "b");
    assert!(matches!(t.delete_job(9, false, true), ResponseFromAppToServer::Deleted));
    assert!(!t.contains(9));
}

#[test]
fn thread_count_is_at_least_one() {
    let mut r = RunApp { database: "db".to_string(), threads: None, state_path: "s".to_string() };
    assert_eq!(r.get_threads(), 1);
    r.threads = Some(0);
    assert_eq!(r.get_threads(), 1);
    r.threads = Some(8);
    assert_eq!(r.get_threads(), 8);
}
