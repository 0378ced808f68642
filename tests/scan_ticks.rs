use memora::agent::{Agent, MAX_WORKERS, SCAN_INTERVAL};
use memora::pipeline::{Reply, Request, UploadPipeline};
use memora::scheduler::{Listed, Step};
use memora::schema::{FileResponse, FileStatus, FileType};

/// A tree: each directory with its children.
struct Tree {
    dirs: Vec<(String, Vec<(String, FileType)>)>,
}

impl Tree {
    fn list(&self, dir: &str) -> Option<Vec<Listed>> {
        self.dirs.iter().find(|(d, _)| d == dir).map(|(_, children)| {
            children
                .iter()
                .map(|(p, k)| Listed { path: p.clone(), kind: *k })
                .collect()
        })
    }
}

/// A remote service that counts its calls.
#[derive(Default)]
struct Remote {
    next_id: u128,
    creates: Vec<(String, u128)>,
    transfers: Vec<String>,
    updates: Vec<String>,
    fail_transfer_of: Vec<String>,
}

impl Remote {
    fn calls(&self) -> usize {
        self.creates.len() + self.transfers.len() + self.updates.len()
    }

    fn serve(&mut self, req: Request) -> Reply {
        match req {
            Request::Create { body, .. } => {
                self.next_id += 1;
                let path = if body.directory == "/" {
                    format!("/{}", body.name)
                } else {
                    format!("{}/{}", body.directory, body.name)
                };
                self.creates.push((path, self.next_id));
                Reply::Created(Some(FileResponse {
                    id: self.next_id,
                    name: body.name,
                    directory: body.directory,
                    file_type: body.file_type,
                    status: FileStatus::OPEN,
                    presigned_url: None,
                    upload_presigned_url: match body.file_type {
                        FileType::FILE => Some(format!("http://store/{}", self.next_id)),
                        FileType::DIRECTORY => None,
                    },
                    created_at: 100,
                    modified_at: 100,
                }))
            }
            Request::Transfer { path, .. } => {
                self.transfers.push(path.clone());
                Reply::Transferred(!self.fail_transfer_of.contains(&path))
            }
            Request::Update { endpoint, .. } => {
                self.updates.push(endpoint);
                Reply::Updated(true)
            }
        }
    }
}

fn run_pipeline(remote: &mut Remote, path: &str, kind: FileType) -> Option<FileResponse> {
    let mut p = UploadPipeline::new(path.to_string(), kind);
    while let Some(req) = p.next_request() {
        let reply = remote.serve(req);
        p.advance(reply);
    }
    p.into_outcome()
}

/// Runs one tick; dispatched files run only when the tick waits for a worker,
/// so that several are in flight at once. Returns the order of the steps and
/// the largest number of files in flight.
fn run_tick(agent: &mut Agent, tree: &Tree, remote: &mut Remote) -> (Vec<String>, usize) {
    assert!(agent.scan_dir());
    let mut log = Vec::new();
    let mut running: Vec<String> = Vec::new();
    let mut most = 0;
    loop {
        assert!(agent.ready());
        match agent.next_step() {
            Step::List(d) => match tree.list(&d) {
                Some(entries) => agent.listed(entries),
                None => agent.listing_failed(),
            },
            Step::Skip(p) => log.push(format!("skip {}", p)),
            Step::Register(d) => {
                log.push(format!("register {}", d));
                let out = run_pipeline(remote, &d, FileType::DIRECTORY);
                agent.registered(out);
            }
            Step::Dispatch(f) => {
                log.push(format!("dispatch {}", f));
                running.push(f);
                most = most.max(running.len());
            }
            Step::AwaitWorker => {
                let f = running.remove(0);
                let out = run_pipeline(remote, &f, FileType::FILE);
                log.push(format!("finish {}", f));
                assert!(agent.finished(&f, out));
            }
            Step::Done => break,
        }
    }
    assert!(running.is_empty());
    assert!(!agent.scanning());
    (log, most)
}

fn small_tree() -> Tree {
    Tree {
        dirs: vec![
            (
                "/".to_string(),
                vec![
                    ("/a.txt".to_string(), FileType::FILE),
                    ("/sub".to_string(), FileType::DIRECTORY),
                ],
            ),
            ("/sub".to_string(), vec![("/sub/b.txt".to_string(), FileType::FILE)]),
        ],
    }
}

#[test]
fn new_agent_settings() {
    let agent = Agent::new("tok".to_string(), "/".to_string());
    assert_eq!(agent.scan_interval(), 5);
    assert_eq!(SCAN_INTERVAL, 5);
    assert_eq!(MAX_WORKERS, 4);
    assert_eq!(agent.token(), "tok");
    assert_eq!(agent.root(), "/");
    assert_eq!(agent.index().len(), 0);
    assert!(!agent.scanning());
}

#[test]
fn scan_interval_can_be_changed_but_not_to_zero() {
    let mut agent = Agent::new("tok".to_string(), "/".to_string());
    assert!(!agent.set_scan_interval(0));
    assert_eq!(agent.scan_interval(), 5);
    assert!(agent.set_scan_interval(60));
    assert_eq!(agent.scan_interval(), 60);
}

#[test]
fn first_tick_registers_all_and_second_is_silent() {
    let tree = small_tree();
    let mut agent = Agent::new("tok".to_string(), "/".to_string());
    let mut remote = Remote::default();
    run_tick(&mut agent, &tree, &mut remote);
    assert_eq!(remote.creates.len(), 3);
    assert!(remote.creates.iter().any(|(p, _)| p == "/sub"));
    assert_eq!(remote.transfers.len(), 2);
    assert_eq!(remote.updates.len(), 2);
    assert_eq!(agent.index().len(), 3);
    for p in ["/sub", "/a.txt", "/sub/b.txt"] {
        assert!(agent.index().has(&p.to_string()));
    }

    let before = remote.calls();
    let (log, _) = run_tick(&mut agent, &tree, &mut remote);
    assert_eq!(remote.calls(), before);
    assert_eq!(log.len(), 3);
    assert!(log.iter().all(|l| l.starts_with("skip ")));
    assert_eq!(agent.index().len(), 3);
}

#[test]
fn failed_transfer_is_retried_with_a_new_record() {
    let tree = small_tree();
    let mut agent = Agent::new("tok".to_string(), "/".to_string());
    let mut remote = Remote::default();
    remote.fail_transfer_of.push("/a.txt".to_string());
    run_tick(&mut agent, &tree, &mut remote);
    assert!(!agent.index().has(&"/a.txt".to_string()));
    assert!(agent.index().has(&"/sub/b.txt".to_string()));
    let first_id = remote.creates.iter().find(|(p, _)| p == "/a.txt").unwrap().1;

    remote.fail_transfer_of.clear();
    let (log, _) = run_tick(&mut agent, &tree, &mut remote);
    assert!(log.contains(&"dispatch /a.txt".to_string()));
    let ids: Vec<u128> = remote
        .creates
        .iter()
        .filter(|(p, _)| p == "/a.txt")
        .map(|(_, id)| *id)
        .collect();
    assert_eq!(ids.len(), 2);
    assert_ne!(ids[1], first_id);
    assert!(agent.index().has(&"/a.txt".to_string()));
    assert_eq!(agent.index().get(&"/a.txt".to_string()).unwrap().id, ids[1]);
    assert_eq!(remote.transfers.iter().filter(|p| *p == "/a.txt").count(), 2);
}

#[test]
fn no_more_files_in_flight_than_the_budget() {
    let files: Vec<(String, FileType)> =
        (0..10).map(|i| (format!("/f{}.bin", i), FileType::FILE)).collect();
    let tree = Tree { dirs: vec![("/".to_string(), files)] };
    let mut agent = Agent::new("tok".to_string(), "/".to_string());
    let mut remote = Remote::default();
    let (_, most) = run_tick(&mut agent, &tree, &mut remote);
    assert_eq!(most, 4);
    assert_eq!(agent.index().len(), 10);
}

#[test]
fn directory_registered_before_its_files_are_dispatched() {
    let tree = small_tree();
    let mut agent = Agent::new("tok".to_string(), "/".to_string());
    let mut remote = Remote::default();
    let (log, _) = run_tick(&mut agent, &tree, &mut remote);
    let reg = log.iter().position(|l| l == "register /sub").unwrap();
    let disp = log.iter().position(|l| l == "dispatch /sub/b.txt").unwrap();
    assert!(reg < disp);
}

#[test]
fn next_tick_refused_while_files_run() {
    let tree = small_tree();
    let mut agent = Agent::new("tok".to_string(), "/".to_string());
    assert!(agent.scan_dir());
    assert!(!agent.scan_dir());
    assert_eq!(agent.next_step(), Step::List("/".to_string()));
    agent.listed(tree.list("/").unwrap());
    assert_eq!(agent.next_step(), Step::Dispatch("/a.txt".to_string()));
    assert_eq!(agent.next_step(), Step::Register("/sub".to_string()));
    agent.registered(None);
    assert_eq!(agent.next_step(), Step::List("/sub".to_string()));
    agent.listed(Vec::new());
    assert_eq!(agent.next_step(), Step::AwaitWorker);
    assert!(!agent.scan_dir());
    assert!(agent.scanning());
    assert!(!agent.finished(&"/other".to_string(), None));
    assert!(agent.finished(&"/a.txt".to_string(), None));
    assert_eq!(agent.next_step(), Step::Done);
    assert!(!agent.scanning());
    assert_eq!(agent.index().len(), 0);
    assert!(agent.scan_dir());
}

#[test]
fn unreadable_directory_ends_the_walk_after_running_files() {
    let tree = Tree {
        dirs: vec![(
            "/".to_string(),
            vec![
                ("/a.txt".to_string(), FileType::FILE),
                ("/locked".to_string(), FileType::DIRECTORY),
            ],
        )],
    };
    let mut agent = Agent::new("tok".to_string(), "/".to_string());
    let mut remote = Remote::default();
    let (log, _) = run_tick(&mut agent, &tree, &mut remote);
    assert!(log.contains(&"finish /a.txt".to_string()));
    assert!(agent.index().has(&"/locked".to_string()));
    assert!(agent.index().has(&"/a.txt".to_string()));
}

#[test]
fn restored_records_are_skipped() {
    let tree = small_tree();
    let mut agent = Agent::new("tok".to_string(), "/".to_string());
    let rec = FileResponse {
        id: 42,
        name: "a.txt".to_string(),
        directory: "/".to_string(),
        file_type: FileType::FILE,
        status: FileStatus::CLOSED,
        presigned_url: None,
        upload_presigned_url: None,
        created_at: 1,
        modified_at: 2,
    };
    assert!(agent.restore("/a.txt".to_string(), rec));
    let mut remote = Remote::default();
    let (log, _) = run_tick(&mut agent, &tree, &mut remote);
    assert!(log.contains(&"skip /a.txt".to_string()));
    assert!(!remote.creates.iter().any(|(p, _)| p == "/a.txt"));
    assert_eq!(agent.index().get(&"/a.txt".to_string()).unwrap().id, 42);
}
