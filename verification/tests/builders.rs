use back2back::B2BBackup;
use back2back::B2BBackupSpec;
use back2back::EnvVar;
use back2back::PostgresAuth;
use back2back::PostgresConfig;
use back2back::S3Auth;
use back2back::S3Config;
use back2back::generate_random_string;
use back2back::u16_to_decimal;

fn sample_intent() -> B2BBackup {
    B2BBackup {
        name: "mydb".to_string(),
        namespace: Some("prod".to_string()),
        uid: Some("uid-123".to_string()),
        spec: B2BBackupSpec {
            postgres: PostgresConfig {
                host: "db.internal".to_string(),
                port: 5432,
                auth: PostgresAuth { password: "hunter2".to_string() },
            },
            s3: S3Config {
                endpoint: Some("https://s3.example".to_string()),
                bucket: "backups".to_string(),
                auth: S3Auth { access: "AK".to_string(), secret: "SK".to_string() },
                region: Some("eu-west-1".to_string()),
            },
            schedule: "*/5 * * * *".to_string(),
        },
        status: None,
    }
}

fn env_value(env: &[EnvVar], name: &str) -> Option<String> {
    env.iter()
        .find(|e| e.name == name)
        .expect("missing environment entry")
        .value
        .clone()
}

#[test]
fn owner_reference_points_at_intent() {
    let intent = sample_intent();
    let or = intent.build_owner_reference();
    assert_eq!(or.api_version, "b2b.moreiradj.fr/v1");
    assert_eq!(or.kind, "B2BBackup");
    assert_eq!(or.name, "mydb");
    assert_eq!(or.uid, "uid-123");
    assert_eq!(or.controller, Some(true));
    assert_eq!(or.block_owner_deletion, Some(true));
}

#[test]
fn default_labels_identify_the_intent() {
    let intent = sample_intent();
    let labels = intent.default_labels();
    assert_eq!(
        labels,
        vec![
            ("app.kubernetes.io/managed-by".to_string(), "mydb".to_string()),
            ("b2b.moreiradj.fr/backup-name".to_string(), "mydb".to_string()),
        ]
    );
}

#[test]
fn cronjob_carries_identity_and_policies() {
    let intent = sample_intent();
    let job = intent.create_cronjob();
    assert_eq!(job.name, "mydb");
    assert_eq!(job.namespace, "prod");
    assert_eq!(job.schedule, "*/5 * * * *");
    assert_eq!(job.concurrency_policy, "Replace");
    assert_eq!(job.restart_policy, "OnFailure");
    assert_eq!(job.job_name, "mydb-pgdump");
    assert_eq!(job.container.name, "mydb-pgdump");
    assert_eq!(job.container.image, "ghcr.io/mmoreiradj/back2back-postgres-backup:latest");
    assert_eq!(job.container.image_pull_policy, "IfNotPresent");
    assert_eq!(job.labels, intent.default_labels());
    assert_eq!(job.job_labels, intent.default_labels());
    assert_eq!(job.owner_references, vec![intent.build_owner_reference()]);
    assert!(job.status.is_none());
}

#[test]
fn cronjob_environment_maps_intent_fields() {
    let intent = sample_intent();
    let env = intent.create_cronjob().container.env;
    assert_eq!(env.len(), 9);
    assert_eq!(env_value(&env, "PGUSER"), Some("postgres".to_string()));
    assert_eq!(env_value(&env, "PGPASSWORD"), Some("hunter2".to_string()));
    assert_eq!(env_value(&env, "PGHOST"), Some("db.internal".to_string()));
    assert_eq!(env_value(&env, "PGPORT"), Some("5432".to_string()));
    assert_eq!(env_value(&env, "PGDUMP_DIR"), Some("/tmp".to_string()));
    assert_eq!(env_value(&env, "S3_ENDPOINT"), Some("https://s3.example".to_string()));
    assert_eq!(env_value(&env, "AWS_ACCESS_KEY_ID"), Some("AK".to_string()));
    assert_eq!(env_value(&env, "AWS_SECRET_ACCESS_KEY"), Some("SK".to_string()));
    assert_eq!(env_value(&env, "AWS_DEFAULT_REGION"), Some("eu-west-1".to_string()));
}

#[test]
fn optional_store_fields_stay_absent() {
    let mut intent = sample_intent();
    intent.spec.s3.endpoint = None;
    intent.spec.s3.region = None;
    let env = intent.create_cronjob().container.env;
    assert_eq!(env_value(&env, "S3_ENDPOINT"), None);
    assert_eq!(env_value(&env, "AWS_DEFAULT_REGION"), None);
}

#[test]
fn namespace_falls_back_to_default() {
    let mut intent = sample_intent();
    intent.namespace = None;
    assert_eq!(intent.create_cronjob().namespace, "default");
    assert_eq!(intent.create_test_postgres_pod().namespace, "default");
}

#[test]
fn security_posture_is_fixed() {
    let intent = sample_intent();
    let sc = intent.create_cronjob().container.security_context;
    assert!(!sc.allow_privilege_escalation);
    assert_eq!(sc.capabilities_drop, vec!["ALL".to_string()]);
    assert!(!sc.read_only_root_filesystem);
    assert_eq!(sc.run_as_group, 0);
    assert!(!sc.run_as_non_root);
    assert_eq!(sc.run_as_user, 0);
    assert_eq!(sc.seccomp_profile_type, "RuntimeDefault");
    let pod_sc = intent.create_test_postgres_pod().container.security_context;
    assert_eq!(sc, pod_sc);
}

#[test]
fn test_pod_is_a_single_run_workload() {
    let intent = sample_intent();
    let pod = intent.create_test_postgres_pod();
    assert_eq!(pod.generate_name, "mydb-test-");
    assert_eq!(pod.namespace, "prod");
    assert_eq!(pod.restart_policy, "Never");
    assert_eq!(pod.container.name, "mydb-test");
    assert_eq!(pod.labels, intent.default_labels());
    assert_eq!(pod.owner_references, vec![intent.build_owner_reference()]);
    assert_eq!(pod.container.env, intent.create_cronjob().container.env);
}

#[test]
fn rebuilding_gives_identical_objects() {
    let intent = sample_intent();
    let j1 = intent.create_cronjob();
    let j2 = intent.create_cronjob();
    assert_eq!(j1.container.env, j2.container.env);
    assert_eq!(j1.owner_references, j2.owner_references);
    assert_eq!(j1, j2);
    let p1 = intent.create_test_postgres_pod();
    let p2 = intent.create_test_postgres_pod();
    assert_eq!(p1, p2);
}

#[test]
fn decimal_rendering_is_exact() {
    assert_eq!(u16_to_decimal(0), "0");
    assert_eq!(u16_to_decimal(7), "7");
    assert_eq!(u16_to_decimal(10), "10");
    assert_eq!(u16_to_decimal(5432), "5432");
    assert_eq!(u16_to_decimal(65535), "65535");
}

#[test]
fn random_string_has_requested_shape() {
    let s = generate_random_string(16);
    assert_eq!(s.chars().count(), 16);
    assert!(s.chars().all(|c| c.is_ascii_alphanumeric()));
    assert_eq!(generate_random_string(0), "");
    let t = generate_random_string(24);
    assert_eq!(t.chars().count(), 24);
}
