//! Tests of the harness's decision and formatting logic: vocabularies,
//! paths, command-output interpretation, result rows and experiment plans.

use sc2_exp::args::{ImagePullRunArgs, RunCommonArgs, ScaleOutRunArgs, StartUpRunArgs};
use sc2_exp::baselines::{
    AvailableBaselines, ImagePullBaselines, ImagePullEncryptionTypes, ImagePullWorkloads,
    StartUpFlavours,
};
use sc2_exp::containerd::{EventTimeline, Interval, RoleIntervals};
use sc2_exp::cri::Cri;
use sc2_exp::deploy::{Deploy, SnapshotterGcPoll};
use sc2_exp::env::Env;
use sc2_exp::experiment::{
    AvailableExperiments, ExecutionResult, Exp, ExperimentAction, ServiceConfig,
};
use sc2_exp::kubernetes::K8s;

#[test]
fn baseline_names_round_trip() {
    for b in AvailableBaselines::iter_variants() {
        assert_eq!(AvailableBaselines::from_str(b.name()), Ok(b));
    }
    assert_eq!(AvailableBaselines::iter_variants().len(), 6);
    assert_eq!(AvailableBaselines::from_str("no-such"), Err(()));
    assert_eq!(AvailableBaselines::SnpSc2.name(), "snp-sc2");
}

#[test]
fn other_vocabularies_round_trip() {
    for p in ImagePullBaselines::iter_variants() {
        assert_eq!(ImagePullBaselines::from_str(p.name()), Ok(p));
    }
    for f in StartUpFlavours::iter_variants() {
        assert_eq!(StartUpFlavours::from_str(f.name()), Ok(f));
    }
    for w in ImagePullWorkloads::iter_variants() {
        assert_eq!(ImagePullWorkloads::from_str(w.name()), Ok(w));
    }
    for e in ImagePullEncryptionTypes::iter_variants() {
        assert_eq!(ImagePullEncryptionTypes::from_str(e.name()), Ok(e));
    }
    assert_eq!(ImagePullBaselines::iter_variants().len(), 4);
    assert_eq!(StartUpFlavours::iter_variants().len(), 2);
    assert_eq!(ImagePullWorkloads::iter_variants().len(), 3);
    assert_eq!(ImagePullEncryptionTypes::iter_variants().len(), 2);
    assert_eq!(StartUpFlavours::from_str("tepid"), Err(()));
}

#[test]
fn runtime_classes() {
    assert_eq!(AvailableBaselines::Runc.runtime_class(), "runc");
    assert_eq!(AvailableBaselines::Kata.runtime_class(), "kata-qemu");
    assert_eq!(AvailableBaselines::Snp.runtime_class(), "kata-qemu-snp");
    assert_eq!(AvailableBaselines::SnpSc2.runtime_class(), "kata-qemu-snp-sc2");
    assert_eq!(AvailableBaselines::Tdx.runtime_class(), "kata-qemu-tdx");
    assert_eq!(AvailableBaselines::TdxSc2.runtime_class(), "kata-qemu-tdx-sc2");
}

#[test]
fn env_paths_and_names() {
    assert_eq!(Env::results_root("/proj"), "/proj/results");
    assert_eq!(Env::apps_root("/proj"), "/proj/../applications");
    assert_eq!(Deploy::deploy_root("/proj"), "/proj/../deploy");
    assert_eq!(Env::k8s_namespace(), "sc2");
    assert_eq!(Env::sys_name(), "sc2-exp");
    assert_eq!(Env::container_registry_url(), "sc2cr.io/applications");
    assert_eq!(
        Env::knative_sidecar_image_name(),
        "sc2cr.io/system/knative-sidecar"
    );
}

#[test]
fn pod_readiness_decisions() {
    assert!(K8s::pods_ready(b"'True' 'True'", 2));
    assert!(!K8s::pods_ready(b"'True'", 2));
    assert!(!K8s::pods_ready(b"'True' 'False'", 2));
    assert!(K8s::pods_ready(b"", 0));
    assert!(K8s::service_ready(b"hello-world", b"hello-world"));
    assert!(!K8s::service_ready(b"hello-world extra", b"hello-world"));
    assert!(!K8s::service_ready(b"", b"hello-world"));
    assert!(K8s::scale_down_complete(b"  \n"));
    assert!(!K8s::scale_down_complete(b"'True'"));
}

#[test]
fn runtime_class_lines_are_stripped() {
    let yaml = b"kind: Service\nspec:\n  runtimeClassName: kata-qemu\n  image: x\n";
    let out = K8s::strip_runtime_class(yaml);
    assert_eq!(out, b"kind: Service\nspec:\n  image: x".to_vec());
    let untouched = K8s::strip_runtime_class(b"a:\n  b: c");
    assert_eq!(untouched, b"a:\n  b: c".to_vec());
}

#[test]
fn service_url_prefix() {
    assert_eq!(
        K8s::service_url_from_output(b"http://svc.ns.10.0.0.1.sslip.io"),
        Some(b"svc.ns.10.0.0.1.sslip.io".to_vec())
    );
    assert_eq!(K8s::service_url_from_output(b"svc.without.scheme"), None);
}

#[test]
fn image_listing_digests() {
    let listing = b"IMAGE TAG IMAGE-ID SIZE\n\
        docker.io/library/pause v1 sha256:aaa 100\n\
        sc2cr.io/applications/fio unencrypted sha256:bbb 200\n\
        sc2cr.io/applications/fio none sha256:ccc 200\n";
    let ids = Cri::get_digest_from_tag(listing, b"sc2cr.io/applications/fio:unencrypted", false)
        .unwrap();
    assert_eq!(ids, vec![b"sha256:bbb".to_vec(), b"sha256:ccc".to_vec()]);

    // A prefix matches every image under it.
    let all = Cri::get_digest_from_tag(listing, b"sc2cr.io/applications", false).unwrap();
    assert_eq!(all.len(), 2);

    // Nothing found: an error unless missing images are tolerated.
    assert_eq!(
        Cri::get_digest_from_tag(listing, b"no.such/image", false),
        Err(())
    );
    assert_eq!(
        Cri::get_digest_from_tag(listing, b"no.such/image", true),
        Ok(vec![])
    );
}

#[test]
fn snapshotter_poll_reading() {
    assert_eq!(
        Deploy::snapshotter_gc_poll(false, Some(1), b"bucket not found\n"),
        SnapshotterGcPoll::Cleared
    );
    assert_eq!(
        Deploy::snapshotter_gc_poll(false, Some(2), b"bucket not found\n"),
        SnapshotterGcPoll::Failed
    );
    assert_eq!(
        Deploy::snapshotter_gc_poll(false, None, b"other error"),
        SnapshotterGcPoll::Failed
    );
    assert_eq!(
        Deploy::snapshotter_gc_poll(true, Some(0), b"\n"),
        SnapshotterGcPoll::Cleared
    );
    assert_eq!(
        Deploy::snapshotter_gc_poll(true, Some(0), b"snap1\nsnap2\nsnap3\n"),
        SnapshotterGcPoll::Pending(2)
    );
}

#[test]
fn durations_truncate_toward_zero() {
    assert_eq!(Exp::duration_ms(0, 1500), 1);
    assert_eq!(Exp::duration_ms(0, 999), 0);
    assert_eq!(Exp::duration_ms(1500, 0), -1);
    assert_eq!(Exp::duration_ms(-2000, 2000), 4);
    assert_eq!(Exp::duration_ms(i64::MIN, i64::MAX), 18446744073709551 as i64);
}

#[test]
fn data_file_headers() {
    assert_eq!(
        Exp::data_file_header(&AvailableExperiments::ScaleOut),
        "Run,TimeMs"
    );
    assert_eq!(
        Exp::data_file_header(&AvailableExperiments::StartUp),
        "Run,Event,TimeMs"
    );
    assert_eq!(
        Exp::data_file_header(&AvailableExperiments::ImagePull),
        "Run,Event,TimeMs"
    );
}

#[test]
fn clean_up_only_after_cold_runs() {
    assert!(Exp::clean_up_after_run(StartUpFlavours::Cold));
    assert!(!Exp::clean_up_after_run(StartUpFlavours::Warm));
}

fn timeline_with_two_events() -> EventTimeline {
    EventTimeline {
        sandbox: Some(Interval { start_us: 1000, end_us: 3000 }),
        pull: None,
        user_container: RoleIntervals {
            create: Some(Interval { start_us: 3000, end_us: 10000 }),
            start: None,
        },
        queue_proxy: RoleIntervals { create: None, start: None },
    }
}

#[test]
fn start_up_rows() {
    let res = ExecutionResult {
        iter: 2,
        start_time_us: 0,
        end_time_us: 250000,
        event_ts: timeline_with_two_events(),
    };
    let rows = Exp::results_rows(&AvailableExperiments::StartUp, &res);
    assert_eq!(
        rows,
        vec![
            "2,StartUp,250".to_string(),
            "2,CreateContainerUserContainer,7".to_string(),
            "2,RunPodSandbox,2".to_string(),
        ]
    );
}

#[test]
fn image_pull_rows_with_runtime_remainder() {
    let res = ExecutionResult {
        iter: 0,
        start_time_us: 0,
        end_time_us: 250000,
        event_ts: timeline_with_two_events(),
    };
    let rows = Exp::results_rows(&AvailableExperiments::ImagePull, &res);
    // The function runtime is what remains after the latest event end.
    assert_eq!(
        rows,
        vec![
            "0,EndToEnd,250".to_string(),
            "0,CreateContainerUserContainer,7".to_string(),
            "0,RunPodSandbox,2".to_string(),
            "0,FuncRuntime,240".to_string(),
        ]
    );
}

#[test]
fn scale_out_rows() {
    let res = ExecutionResult {
        iter: 7,
        start_time_us: 1000,
        end_time_us: 5000,
        event_ts: EventTimeline {
            sandbox: None,
            pull: None,
            user_container: RoleIntervals { create: None, start: None },
            queue_proxy: RoleIntervals { create: None, start: None },
        },
    };
    let rows = Exp::results_rows(&AvailableExperiments::ScaleOut, &res);
    assert_eq!(rows, vec!["7,4".to_string()]);
}

#[test]
fn fresh_execution_result() {
    let r = ExecutionResult::new(123456);
    assert_eq!(r.iter, 0);
    assert_eq!(r.start_time_us, 123456);
    assert_eq!(r.end_time_us, 123456);
    assert_eq!(r.event_ts.count(), 0);
}

#[test]
fn results_file_names() {
    let config = ServiceConfig {
        baseline: AvailableBaselines::Snp,
        kservice_name: "hello-world".to_string(),
        image_name: "hello-world".to_string(),
        image_tag: "unencrypted".to_string(),
        flavour: StartUpFlavours::Warm,
        workload: Some(ImagePullWorkloads::Fio),
        encryption: Some(ImagePullEncryptionTypes::UnEncrypted),
        pull_type: Some(ImagePullBaselines::GuestLazy),
        scale_idx: Some(3),
    };
    assert_eq!(
        Exp::results_file_name(&AvailableExperiments::ImagePull, &config),
        "fio_unencrypted_guest-lazy_warm.csv"
    );
    assert_eq!(
        Exp::results_file_name(&AvailableExperiments::ScaleOut, &config),
        "snp_3.csv"
    );
    assert_eq!(
        Exp::results_file_name(&AvailableExperiments::StartUp, &config),
        "snp_warm.csv"
    );
}

#[test]
fn start_up_plan_covers_baselines_and_flavours() {
    let args = StartUpRunArgs {
        common: RunCommonArgs { num_repeats: 3, num_warmup_repeats: 1 },
        baseline: vec![AvailableBaselines::Runc, AvailableBaselines::Kata],
        flavour: None,
    };
    let actions = Exp::run_start_up("/apps", &args);
    assert_eq!(actions.len(), 4);
    let expect = [
        (AvailableBaselines::Runc, StartUpFlavours::Cold),
        (AvailableBaselines::Runc, StartUpFlavours::Warm),
        (AvailableBaselines::Kata, StartUpFlavours::Cold),
        (AvailableBaselines::Kata, StartUpFlavours::Warm),
    ];
    for (action, (b, f)) in actions.iter().zip(expect.iter()) {
        match action {
            ExperimentAction::RunService(plan) => {
                assert_eq!(plan.exp, AvailableExperiments::StartUp);
                assert_eq!(plan.yaml_path, "/apps/functions/hello-world/service.yaml");
                assert_eq!(plan.config.baseline, *b);
                assert_eq!(plan.config.flavour, *f);
                assert_eq!(plan.config.kservice_name, "hello-world");
                assert_eq!(plan.config.image_tag, "unencrypted");
            },
            _ => panic!("expected only service runs"),
        }
    }
}

#[test]
fn scale_out_plan_counts_indices() {
    let args = ScaleOutRunArgs {
        common: RunCommonArgs { num_repeats: 3, num_warmup_repeats: 1 },
        baseline: vec![AvailableBaselines::Runc],
        scale_up_range: 4,
    };
    let actions = Exp::run_scale_out("/apps", &args);
    assert_eq!(actions.len(), 3);
    for (k, action) in actions.iter().enumerate() {
        match action {
            ExperimentAction::RunService(plan) => {
                assert_eq!(plan.exp, AvailableExperiments::ScaleOut);
                assert_eq!(
                    plan.yaml_path,
                    "/apps/functions/hello-world-scale-out/service.yaml"
                );
                assert_eq!(plan.config.scale_idx, Some(k as u32 + 1));
                assert_eq!(plan.config.flavour, StartUpFlavours::Cold);
            },
            _ => panic!("expected only service runs"),
        }
    }
}

#[test]
fn image_pull_plan_single_combination() {
    let args = ImagePullRunArgs {
        common: RunCommonArgs { num_repeats: 1, num_warmup_repeats: 0 },
        flavour: Some(StartUpFlavours::Cold),
        pull_type: Some(ImagePullBaselines::HostMount),
        workload: Some(ImagePullWorkloads::Fio),
        encryption: Some(ImagePullEncryptionTypes::UnEncrypted),
    };
    let actions = Exp::run_image_pull("/apps", &args);
    assert_eq!(actions.len(), 3);
    match &actions[0] {
        ExperimentAction::SetSnapshotterMode(m) => assert_eq!(m, "host-share"),
        _ => panic!("expected a snapshotter mode switch first"),
    }
    assert!(matches!(actions[1], ExperimentAction::PurgeSnapshotters));
    match &actions[2] {
        ExperimentAction::RunService(plan) => {
            assert_eq!(plan.exp, AvailableExperiments::ImagePull);
            assert_eq!(plan.yaml_path, "/apps/functions/fio/service.yaml");
            assert_eq!(plan.config.baseline, AvailableBaselines::SnpSc2);
            assert_eq!(plan.config.kservice_name, "fio");
            assert_eq!(plan.config.image_tag, "unencrypted");
            assert_eq!(plan.config.workload, Some(ImagePullWorkloads::Fio));
        },
        _ => panic!("expected the service run last"),
    }
}

#[test]
fn image_pull_plan_default_mechanisms_thread_the_tag() {
    let args = ImagePullRunArgs {
        common: RunCommonArgs { num_repeats: 1, num_warmup_repeats: 0 },
        flavour: Some(StartUpFlavours::Cold),
        pull_type: None,
        workload: Some(ImagePullWorkloads::HelloWorld),
        encryption: None,
    };
    let actions = Exp::run_image_pull("/apps", &args);
    // Three mechanisms, each: set mode, purge, one cold run.
    assert_eq!(actions.len(), 9);
    let tags: Vec<String> = actions
        .iter()
        .filter_map(|a| match a {
            ExperimentAction::RunService(plan) => Some(plan.config.image_tag.clone()),
            _ => None,
        })
        .collect();
    // The lazy-pull suffix, once appended, carries over to the mechanisms
    // that follow it in the list.
    assert_eq!(
        tags,
        vec![
            "unencrypted".to_string(),
            "unencrypted-nydus".to_string(),
            "unencrypted-nydus".to_string(),
        ]
    );
    let modes: Vec<String> = actions
        .iter()
        .filter_map(|a| match a {
            ExperimentAction::SetSnapshotterMode(m) => Some(m.clone()),
            _ => None,
        })
        .collect();
    assert_eq!(
        modes,
        vec![
            "guest-pull".to_string(),
            "guest-pull".to_string(),
            "host-share".to_string(),
        ]
    );
}

#[test]
fn experiment_names() {
    assert_eq!(AvailableExperiments::ImagePull.name(), "image-pull");
    assert_eq!(AvailableExperiments::ScaleOut.name(), "scale-out");
    assert_eq!(AvailableExperiments::StartUp.name(), "start-up");
}
