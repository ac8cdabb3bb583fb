use hammer_sickle::config::{CliRaw, Config, ConfigFileRaw};
use hammer_sickle::foreman::{host_names, ForemanApiHost, ForemanApiPage, ForemanApiSortBy};
use hammer_sickle::report::{
  exit_status, host_results, run_plan, ssh_output_stream, HostResult, OutputStream, RunPlan,
};
use hammer_sickle::ssh::{prefixed_line, SshError};

/// The command line of a run against a Foreman at `url`, with dummy
/// credentials, quiet logging and one host at a time.
fn base_cli(url: &str) -> CliRaw {
  CliRaw {
    command: None,
    search: "test".to_string(),
    foreman_url: Some(url.to_string()),
    foreman_user: Some("test".to_string()),
    foreman_password: Some("test".to_string()),
    log_level: Some("error".to_string()),
    log_format: None,
    concurrency: Some(1),
    config: None,
    report_json: false,
    success_codes: None,
  }
}

fn config_of(cli: CliRaw) -> Config {
  match Config::from_cli_and_file(cli, ConfigFileRaw::default(), None) {
    Ok(c) => c,
    Err(_) => panic!("configuration refused"),
  }
}

fn host(id: i64, name: &str) -> ForemanApiHost {
  ForemanApiHost {
    architecture_id: None,
    architecture_name: None,
    build: false,
    capabilities: Vec::new(),
    certname: None,
    comment: None,
    compute_profile_id: None,
    compute_profile_name: None,
    compute_resource_id: None,
    compute_resource_name: None,
    created_at: None,
    disk: None,
    domain_id: None,
    domain_name: None,
    enabled: true,
    environment_id: None,
    environment_name: None,
    global_status: 0,
    global_status_label: None,
    hostgroup_id: None,
    hostgroup_name: None,
    hostgroup_title: None,
    id,
    image_file: String::new(),
    image_id: None,
    image_name: None,
    installed_at: None,
    ip6: None,
    ip: None,
    last_compile: None,
    last_report: None,
    location_id: None,
    location_name: None,
    mac: None,
    managed: true,
    medium_id: None,
    medium_name: None,
    model_id: None,
    model_name: None,
    name: name.to_string(),
    operatingsystem_id: None,
    operatingsystem_name: None,
    organization_id: None,
    organization_name: None,
    owner_id: 1,
    owner_name: String::new(),
    owner_type: String::new(),
    provision_method: None,
    ptable_id: None,
    ptable_name: None,
    puppet_ca_proxy: None,
    puppet_ca_proxy_id: None,
    puppet_ca_proxy_name: None,
    puppet_proxy: None,
    puppet_proxy_id: None,
    puppet_proxy_name: None,
    puppet_status: 0,
    pxe_loader: None,
    realm_id: None,
    realm_name: None,
    registration_token: None,
    sp_ip: None,
    sp_mac: None,
    sp_name: None,
    sp_subnet_id: None,
    subnet6_id: None,
    subnet6_name: None,
    subnet_id: None,
    subnet_name: None,
    updated_at: None,
    uptime_seconds: None,
    use_image: None,
    uuid: None,
  }
}

/// A single-page Foreman answer holding the given hostnames.
fn page_of(names: &[&str]) -> ForemanApiPage<ForemanApiHost> {
  let results: Vec<ForemanApiHost> = names
    .iter()
    .enumerate()
    .map(|(i, n)| host(i as i64 + 1, n))
    .collect();
  ForemanApiPage {
    page: 1,
    per_page: 250,
    search: None,
    results,
    sort: ForemanApiSortBy { by: None, order: None },
    subtotal: names.len() as i64,
    total: names.len() as i64,
  }
}

/// Runs the mock command on every listed host: each exits with `code`.
fn run_mock(config: &Config, names: &[&str], code: i32) -> Vec<HostResult> {
  let command = match run_plan(config.command.clone()) {
    RunPlan::Execute(c) => c,
    RunPlan::ListHosts => panic!("expected a command to run"),
  };
  assert!(!command.is_empty());
  let hosts = host_names(&page_of(names));
  let runs: Vec<(String, Result<i32, SshError>)> =
    hosts.into_iter().map(|h| (h, Ok(code))).collect();
  host_results(runs)
}

/// Library-level form of the program test of the same name: the outcomes
/// of the mock `ssh` runs are built on library values instead of running the
/// program, so what the program prints on standard output (the JSON report,
/// or the host-prefixed lines) is not checked here.
#[test]
fn test_report_json_success() {
  let mut cli = base_cli("http://127.0.0.1:1");
  cli.report_json = true;
  cli.command = Some("hostname".to_string());
  let config = config_of(cli);
  assert!(config.report_json);
  assert!(matches!(ssh_output_stream(config.report_json), OutputStream::Stderr));

  let results = run_mock(&config, &["host1.example.com", "host2.example.com"], 0);
  assert_eq!(exit_status(&results, &config.success_codes), 0);
  assert_eq!(results.len(), 2);
  for result in &results {
    assert_eq!(result.exit_code, Some(0));
    assert!(result.error.is_none());
  }
}

/// Library-level form of the program test of the same name: the outcomes
/// of the mock `ssh` runs are built on library values instead of running the
/// program, so what the program prints on standard output (the JSON report,
/// or the host-prefixed lines) is not checked here.
#[test]
fn test_report_json_failure() {
  let mut cli = base_cli("http://127.0.0.1:1");
  cli.report_json = true;
  cli.command = Some("fail".to_string());
  let config = config_of(cli);

  let results = run_mock(&config, &["host1.example.com", "host2.example.com"], 1);
  assert_eq!(exit_status(&results, &config.success_codes), 1);
  assert_eq!(results.len(), 2);
  for result in &results {
    assert_eq!(result.exit_code, Some(1));
  }
}

/// Library-level form of the program test of the same name: the outcomes
/// of the mock `ssh` runs are built on library values instead of running the
/// program, so what the program prints on standard output (the JSON report,
/// or the host-prefixed lines) is not checked here.
#[test]
fn test_custom_success_codes() {
  let mut cli = base_cli("http://127.0.0.1:1");
  cli.report_json = true;
  cli.success_codes = Some("0,2".to_string());
  cli.command = Some("puppet".to_string());
  let config = config_of(cli);
  assert_eq!(config.success_codes, vec![0, 2]);

  let results = run_mock(&config, &["host1.example.com"], 2);
  assert_eq!(exit_status(&results, &config.success_codes), 0);
}

/// Library-level form of the program test of the same name: the outcomes
/// of the mock `ssh` runs are built on library values instead of running the
/// program, so what the program prints on standard output (the JSON report,
/// or the host-prefixed lines) is not checked here.
#[test]
fn test_exit_propagation_without_json() {
  let mut cli = base_cli("http://127.0.0.1:1");
  cli.command = Some("fail".to_string());
  let config = config_of(cli);
  assert!(!config.report_json);
  assert!(matches!(ssh_output_stream(config.report_json), OutputStream::Stdout));

  let results = run_mock(&config, &["host1.example.com"], 1);
  assert_eq!(exit_status(&results, &config.success_codes), 1);

  let shown = prefixed_line("host1.example.com", "host1.example.com: mock output");
  assert!(shown.contains("host1.example.com"));
  assert_eq!(shown, "host1.example.com: host1.example.com: mock output");
}

/// Library-level form of the program test of the same name: the outcomes
/// of the mock `ssh` runs are built on library values instead of running the
/// program, so what the program prints on standard output (the JSON report,
/// or the host-prefixed lines) is not checked here.
#[test]
fn test_no_command_lists_hosts() {
  let config = config_of(base_cli("http://127.0.0.1:1"));
  assert!(matches!(run_plan(config.command.clone()), RunPlan::ListHosts));

  let hosts = host_names(&page_of(&["alpha.example.com", "beta.example.com"]));
  assert!(hosts.contains(&"alpha.example.com".to_string()));
  assert!(hosts.contains(&"beta.example.com".to_string()));

  // Listing runs nothing, so nothing can fail.
  let results: Vec<HostResult> = Vec::new();
  assert_eq!(exit_status(&results, &config.success_codes), 0);
}

#[test]
fn run_report_keeps_host_order_and_outcomes() {
  let runs = vec![
    ("b.example.com".to_string(), Ok(0)),
    ("a.example.com".to_string(), Err(SshError::KilledBySignal { host: "a.example.com".to_string() })),
    ("c.example.com".to_string(), Ok(3)),
  ];
  let results = host_results(runs);
  assert_eq!(results.len(), 3);
  assert_eq!(results[0].host, "b.example.com");
  assert_eq!(results[0].exit_code, Some(0));
  assert!(results[0].error.is_none());
  assert_eq!(results[1].host, "a.example.com");
  assert_eq!(results[1].exit_code, None);
  assert_eq!(
    results[1].error.as_deref(),
    Some("SSH process on a.example.com was killed by a signal")
  );
  assert_eq!(results[2].host, "c.example.com");
  assert_eq!(results[2].exit_code, Some(3));
  assert!(host_results(Vec::new()).is_empty());
  match run_plan(Some("uptime".to_string())) {
    RunPlan::Execute(c) => assert_eq!(c, "uptime"),
    RunPlan::ListHosts => panic!("expected Execute"),
  }
}
