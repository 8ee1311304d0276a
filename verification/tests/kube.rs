use std::collections::HashMap;

use openbridge::config::Notebook;
use openbridge::kube::models::{NotebookSpec, PVCSpec};
use openbridge::kube::notebook_lifecycle::{
    idle_shutdown, parse_activity, pod_subject, Kernel, MediumPoll, MediumState, NotebookRecord, Phase,
    Polled,
    StreamStage, StreamStep,
};

fn workbench() -> Notebook {
    Notebook {
        url: "quay.io/ibmdpdev/openad_workbench_stage:latest".to_string(),
        pull_policy: "Always".to_string(),
        working_dir: Some("/opt/app-root/src".to_string()),
        volume_mnt_path: Some("/opt/app-root/src".to_string()),
        notebook_env: Some(vec![
            "--ServerApp.token=''".to_string(),
            "--ServerApp.password=''".to_string(),
            "--ServerApp.notebook_dir='/opt/app-root/src'".to_string(),
            "--ServerApp.quit_button=False".to_string(),
            "--ServerApp.default_url='/lab/tree/start_menu.ipynb'".to_string(),
            "--ServerApp.trust_xheaders=True".to_string(),
        ]),
        env: Some(HashMap::new()),
        secret: Some("ibmdpdev-openad-pull-secret".to_string()),
        command: None,
        args: None,
        start_up_url: Some("lab/tree/start_menu.ipynb".to_string()),
        max_idle_time: Some(86400),
    }
}

#[test]
fn test_notebook_spec() {
    let name = "notebook".to_string();
    let volume_name = "notebook-volume".to_string();
    let mut start_url = None;
    let mut max_idle_time = None;
    let image = workbench();

    let spec = NotebookSpec::new(
        name,
        &image,
        volume_name,
        &mut start_url,
        &mut max_idle_time,
        vec![],
    );

    let pod = &spec.template.spec;
    assert_eq!(pod.containers.len(), 1);
    let c = &pod.containers[0];
    assert_eq!(c.name, "notebook");
    assert_eq!(c.image, "quay.io/ibmdpdev/openad_workbench_stage:latest");
    let res = c.resources.as_ref().unwrap();
    let expected = vec![("cpu".to_string(), "2".to_string()), ("memory".to_string(), "4Gi".to_string())];
    assert_eq!(res.requests, expected);
    assert_eq!(res.limits, expected);
    assert_eq!(c.workingdir, Some("/opt/app-root/src".to_string()));
    assert_eq!(c.image_pull_policy, "Always");
    let mounts = c.volume_mounts.as_ref().unwrap();
    assert_eq!(mounts.len(), 1);
    assert_eq!(mounts[0].name, "notebook-volume");
    assert_eq!(mounts[0].mount_path, "/opt/app-root/src");
    assert_eq!(c.command, None);
    assert_eq!(c.args, None);
    let env = c.env.as_ref().unwrap();
    assert_eq!(env.len(), 1);
    assert_eq!(env[0].name, "NOTEBOOK_ARGS");
    assert_eq!(env[0].value, "--ServerApp.token='' --ServerApp.password='' --ServerApp.notebook_dir='/opt/app-root/src' --ServerApp.quit_button=False --ServerApp.default_url='/lab/tree/start_menu.ipynb' --ServerApp.trust_xheaders=True --ServerApp.base_url='notebook/notebook/notebook'");
    let secrets = pod.image_pull_secrets.as_ref().unwrap();
    assert_eq!(secrets.len(), 1);
    assert_eq!(secrets[0].name, "ibmdpdev-openad-pull-secret");
    let volumes = pod.volumes.as_ref().unwrap();
    assert_eq!(volumes.len(), 1);
    assert_eq!(volumes[0].name, "notebook-volume");
    let pvc = volumes[0].persistent_volume_claim.as_ref().unwrap();
    assert_eq!(pvc.claim_name, "notebook-volume");
    assert_eq!(pvc.read_only, None);
    assert!(volumes[0].config_map.is_none());
    assert_eq!(start_url, Some("lab/tree/start_menu.ipynb".to_string()));
    assert_eq!(max_idle_time, Some(86400));
}

#[test]
fn notebook_spec_with_extra_env_and_no_secret() {
    let mut image = workbench();
    image.secret = None;
    image.notebook_env = None;
    image.volume_mnt_path = None;
    let mut start_url = Some("old".to_string());
    let mut max_idle_time = Some(1);
    let spec = NotebookSpec::new(
        "u1".to_string(),
        &image,
        "u1-vol".to_string(),
        &mut start_url,
        &mut max_idle_time,
        vec![("A".to_string(), "1".to_string()), ("B".to_string(), "2".to_string())],
    );
    let pod = &spec.template.spec;
    assert!(pod.image_pull_secrets.is_none());
    let c = &pod.containers[0];
    assert_eq!(c.volume_mounts.as_ref().unwrap()[0].mount_path, "");
    let env = c.env.as_ref().unwrap();
    assert_eq!(env.len(), 3);
    assert_eq!(env[0].value, "--ServerApp.base_url='notebook/notebook/u1'");
    assert_eq!((env[1].name.as_str(), env[1].value.as_str()), ("A", "1"));
    assert_eq!((env[2].name.as_str(), env[2].value.as_str()), ("B", "2"));
}

#[test]
fn test_pvc_spec() {
    let name = "notebook-volume".to_string();
    let storage_size = 10;

    let spec = PVCSpec::new(name, storage_size);

    assert_eq!(spec.name, "notebook-volume");
    assert_eq!(spec.access_modes, vec!["ReadWriteOnce".to_string()]);
    assert_eq!(spec.storage, "10Gi");
}

#[test]
fn test_kernel_deserialize() {
    let k = vec![
        Kernel { last_activity: "2024-12-19T03:45:33.622387Z".to_string(), connections: 1 },
        Kernel { last_activity: "2024-12-19T03:45:01.038322Z".to_string(), connections: 0 },
        Kernel { last_activity: "2024-12-19T03:48:34.163393Z".to_string(), connections: 1 },
    ];
    let mut col = k
        .iter()
        .map(|k| parse_activity(&k.last_activity).unwrap())
        .collect::<Vec<i128>>();

    col.sort();

    col.windows(2)
        .for_each(|w| assert!(w[0] <= w[1], "{:?} <= {:?}", w[0], w[1]));
    assert_eq!(col[0], 1734579901038322000);
}

#[test]
fn activity_timestamps() {
    assert_eq!(parse_activity("1970-01-01T00:00:00.000000Z"), Some(0));
    assert_eq!(parse_activity("1969-12-31T23:59:59.999999Z"), Some(-1000));
    assert_eq!(parse_activity("2000-02-29T12:00:00.000001Z"), Some(951825600000001000));
    assert_eq!(parse_activity("0000-01-01T00:00:00.000000Z"), Some(-62167219200000000000));
    assert_eq!(
        parse_activity("+2024-12-19T03:45:33.622387Z"),
        parse_activity("2024-12-19T03:45:33.622387Z")
    );
    assert_eq!(parse_activity("1900-02-29T00:00:00.000000Z"), None);
    assert_eq!(parse_activity("2024-13-01T00:00:00.000000Z"), None);
    assert_eq!(parse_activity("2024-12-19T24:00:00.000000Z"), None);
    assert_eq!(parse_activity("2024-12-19T03:45:33.62238Z"), None);
    assert_eq!(parse_activity("2024-12-19 03:45:33.622387Z"), None);
}

const DAY: i128 = 86_400_000_000_000;

#[test]
fn idle_notebooks() {
    let now = parse_activity("2024-12-21T00:00:00.000000Z").unwrap();
    let old = "2024-12-19T00:00:00.000000Z".to_string();
    let recent = "2024-12-20T12:00:00.000000Z".to_string();
    let keep = Some(NotebookRecord { start_time: Some(now - 2 * DAY), persist_pvc: true });
    // No kernels: the start time decides.
    assert_eq!(idle_shutdown(&vec![], &keep, now), Some(true));
    let fresh = Some(NotebookRecord { start_time: Some(now - 1), persist_pvc: true });
    assert_eq!(idle_shutdown(&vec![], &fresh, now), None);
    let no_start = Some(NotebookRecord { start_time: None, persist_pvc: true });
    assert_eq!(idle_shutdown(&vec![], &no_start, now), Some(false));
    assert_eq!(idle_shutdown(&vec![], &None, now), Some(false));
    // Kernels: the latest unconnected activity decides.
    let ks = vec![
        Kernel { last_activity: old.clone(), connections: 0 },
        Kernel { last_activity: recent.clone(), connections: 2 },
    ];
    assert_eq!(idle_shutdown(&ks, &keep, now), Some(true));
    assert_eq!(idle_shutdown(&ks, &None, now), Some(false));
    let ks2 = vec![
        Kernel { last_activity: old.clone(), connections: 0 },
        Kernel { last_activity: recent.clone(), connections: 0 },
    ];
    assert_eq!(idle_shutdown(&ks2, &keep, now), None);
    let connected = vec![Kernel { last_activity: old.clone(), connections: 1 }];
    assert_eq!(idle_shutdown(&connected, &keep, now), None);
    let unreadable = vec![Kernel { last_activity: "yesterday".to_string(), connections: 0 }];
    assert_eq!(idle_shutdown(&unreadable, &keep, now), None);
}

#[test]
fn pod_subjects() {
    assert_eq!(pod_subject("67aceff11a66c1fa7c99726c-notebook"), "67aceff11a66c1fa7c99726c");
    assert_eq!(pod_subject("plain"), "plain");
    assert_eq!(pod_subject("-x"), "");
}

#[test]
fn lifecycle_schedule() {
    let mut s = MediumState::new(1_000, 500);
    assert_eq!(s.phase(1_200), Phase::Rest);
    s.wake();
    assert!(s.slept);
    assert_eq!(s.phase(1_500), Phase::Lease);
    assert!(!s.lease_result(false, 1_600));
    assert_eq!(s.phase(2_000), Phase::Rest);
    assert_eq!(s.phase(2_100), Phase::Lease);
    assert!(s.lease_result(true, 2_100));
    assert_eq!(s.phase(2_100), Phase::Stream);
    s.run_finished(3_000);
    assert!(!s.leased);
    assert_eq!(s.phase(3_400), Phase::Rest);
    s.rest();
    assert!(!s.slept);
    assert_eq!(StreamStage::Prep.step(), (StreamStep::Start, StreamStage::Go));
    assert_eq!(StreamStage::Go.step(), (StreamStep::PollRun, StreamStage::Go));
    assert_eq!(StreamStage::Go.run_completed(), StreamStage::Prep);
}

#[test]
fn lifecycle_polls() {
    let mut m = MediumState::new(0, 1_000);
    // Asleep: nothing happens.
    assert_eq!(m.poll(false, true, 5, Polled::Pending, Polled::Pending), MediumPoll::Pending);
    assert!(!m.slept);
    // Awake before the run is due.
    assert_eq!(m.poll(true, false, 500, Polled::Pending, Polled::Pending), MediumPoll::Pending);
    assert!(!m.slept && !m.leased);
    // Due: the lease is taken and a run finishes; the next is scheduled.
    assert_eq!(m.poll(true, false, 1_000, Polled::Ready(true), Polled::Ready(true)), MediumPoll::Pending);
    assert_eq!(m.expiration, 2_000);
    assert!(!m.leased && !m.slept);
    // Due again, lease refused: try again later.
    assert_eq!(m.poll(true, false, 2_000, Polled::Ready(false), Polled::Ready(false)), MediumPoll::Pending);
    assert_eq!(m.expiration, 3_000);
    // Lease taken, then the stream ends: the lifecycle is over.
    assert_eq!(m.poll(true, false, 3_000, Polled::Ready(true), Polled::Ready(false)), MediumPoll::Finished);
    // The shutdown signal ends it too.
    let mut n = MediumState::new(0, 1_000);
    assert_eq!(n.poll(true, true, 10, Polled::Pending, Polled::Pending), MediumPoll::Finished);
}
