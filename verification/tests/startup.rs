use brownhttpd::config::{
    command, shell_named, Command, CommandError, Config, ConfigError, Shell, DEFAULT_PORT,
    DEFAULT_THREADS,
};
use brownhttpd::startup::{
    address_of, failure_message, on_write_failure, startup_plan, Address, Launch, Step,
    WriteFailure,
};

fn config(daemon: bool, chroot: bool, ipv6: bool, port: u16, threads: usize) -> Config {
    Config {
        root: "/srv".to_string(),
        port,
        ipv6,
        chroot,
        daemon,
        threads,
        index: "index.html".to_string(),
    }
}

fn say(line: &str) -> Step {
    Step::Announce(line.to_string())
}

#[test]
fn defaults_are_filled_in() {
    let made = Config::parse("/srv", None, None, None, false, false, false);
    assert_eq!(made, Ok(config(false, false, false, 7878, 1)));
    assert_eq!(DEFAULT_PORT, 7878);
    assert_eq!(DEFAULT_THREADS, 1);
}

#[test]
fn arguments_are_taken_over() {
    let made = Config::parse("/var/www", Some("8080"), Some("4"), Some("home.htm"), true, true, true);
    assert_eq!(
        made,
        Ok(Config {
            root: "/var/www".to_string(),
            port: 8080,
            ipv6: true,
            chroot: true,
            daemon: true,
            threads: 4,
            index: "home.htm".to_string(),
        })
    );
}

#[test]
fn a_port_that_is_no_number_is_refused() {
    let made = Config::parse("/srv", Some("http"), None, None, false, false, false);
    assert_eq!(made, Err(ConfigError::BadPort));
    let made = Config::parse("/srv", Some(""), None, None, false, false, false);
    assert_eq!(made, Err(ConfigError::BadPort));
    let made = Config::parse("/srv", Some("4294967296"), None, None, false, false, false);
    assert_eq!(made, Err(ConfigError::BadPort));
    assert_eq!(ConfigError::BadPort.message(), "Port must be a number!\n");
}

#[test]
fn a_worker_count_that_is_no_number_is_refused() {
    let made = Config::parse("/srv", None, Some("many"), None, false, false, false);
    assert_eq!(made, Err(ConfigError::BadThreads));
    let made = Config::parse("/srv", None, Some("-2"), None, false, false, false);
    assert_eq!(made, Err(ConfigError::BadThreads));
    assert_eq!(ConfigError::BadThreads.message(), "Threads must be a number!\n");
}

#[test]
fn a_bad_port_is_reported_before_a_bad_worker_count() {
    let made = Config::parse("/srv", Some("x"), Some("y"), None, false, false, false);
    assert_eq!(made, Err(ConfigError::BadPort));
}

#[test]
fn a_number_that_is_no_port_is_refused() {
    for ipv6 in [false, true] {
        let made = Config::parse("/srv", Some("70000"), None, None, ipv6, false, false);
        assert_eq!(made, Err(ConfigError::BadPort));
        let made = Config::parse("/srv", Some("65536"), None, None, ipv6, false, false);
        assert_eq!(made, Err(ConfigError::BadPort));
    }
    let asked = command(None, "/srv", Some("70000"), None, None, true, false, false);
    assert_eq!(asked, Err(CommandError::Config(ConfigError::BadPort)));
}

#[test]
fn the_largest_and_the_smallest_port_are_taken() {
    let made = Config::parse("/srv", Some("65535"), Some("0"), None, false, false, false);
    assert_eq!(made, Ok(config(false, false, false, 65535, 0)));
    let made = Config::parse("/srv", Some("0"), None, None, true, false, false);
    assert_eq!(made, Ok(config(false, false, true, 0, 1)));
}

#[test]
fn shells_are_known_by_name() {
    assert_eq!(shell_named("bash"), Some(Shell::Bash));
    assert_eq!(shell_named("zsh"), Some(Shell::Zsh));
    assert_eq!(shell_named("fish"), Some(Shell::Fish));
    assert_eq!(shell_named("tcsh"), None);
    assert_eq!(shell_named("Bash"), None);
    assert_eq!(shell_named(""), None);
}

#[test]
fn completions_are_written_and_nothing_else() {
    let asked = command(Some("zsh"), "/srv", Some("not a port"), None, None, false, false, false);
    assert_eq!(asked, Ok(Command::Completions(Shell::Zsh)));
}

#[test]
fn an_unknown_shell_is_refused() {
    let asked = command(Some("tcsh"), "/srv", None, None, None, false, false, false);
    assert_eq!(asked, Err(CommandError::UnknownShell("tcsh".to_string())));
    assert_eq!(
        CommandError::UnknownShell("tcsh".to_string()).message(),
        "Unknown shell 'tcsh'!"
    );
}

#[test]
fn without_completions_the_server_is_configured() {
    let asked = command(None, "/srv", Some("9000"), None, None, true, false, false);
    assert_eq!(asked, Ok(Command::Serve(config(false, false, true, 9000, 1))));
    let asked = command(None, "/srv", Some("nine"), None, None, true, false, false);
    assert_eq!(asked, Err(CommandError::Config(ConfigError::BadPort)));
    assert_eq!(
        CommandError::Config(ConfigError::BadThreads).message(),
        "Threads must be a number!\n"
    );
}

#[test]
fn the_plain_plan() {
    let steps = startup_plan(&config(false, false, false, 7878, 1));
    assert_eq!(
        steps,
        vec![
            Step::ChangeDir("/srv".to_string()),
            say("Serving directory '/srv'"),
            Step::Bind(Address::V4Any(7878)),
            say("Listening on http:/0.0.0.0:7878/"),
            Step::Serve(1),
        ]
    );
}

#[test]
fn the_full_plan() {
    let steps = startup_plan(&config(true, true, true, 8000, 4));
    assert_eq!(
        steps,
        vec![
            say("Forking to background..."),
            Step::Daemonize,
            Step::ChangeDir("/srv".to_string()),
            Step::Chroot("/srv".to_string()),
            say("Chrooted to '/srv'"),
            say("Serving directory '/srv'"),
            Step::Bind(Address::V6Loopback(8000)),
            say("Listening on http:/[::1]:8000/"),
            Step::Serve(4),
        ]
    );
}

#[test]
fn detaching_comes_before_binding_and_confinement_after_the_change_of_directory() {
    for daemon in [false, true] {
        for chroot in [false, true] {
            let steps = startup_plan(&config(daemon, chroot, false, 80, 2));
            let at = |wanted: fn(&Step) -> bool| steps.iter().position(wanted);
            let detach = at(|s| matches!(s, Step::Daemonize));
            let chdir = at(|s| matches!(s, Step::ChangeDir(_))).unwrap();
            let confine = at(|s| matches!(s, Step::Chroot(_)));
            let bind = at(|s| matches!(s, Step::Bind(_))).unwrap();
            let serve = at(|s| matches!(s, Step::Serve(_))).unwrap();
            assert_eq!(detach.is_some(), daemon);
            assert_eq!(confine.is_some(), chroot);
            if let Some(d) = detach {
                assert!(d < bind);
            }
            if let Some(c) = confine {
                assert!(chdir < c && c < bind && c < serve);
            }
            assert_eq!(serve, steps.len() - 1);
        }
    }
}

#[test]
fn the_address_follows_the_flag() {
    assert_eq!(address_of(&config(false, false, false, 7878, 1)), Address::V4Any(7878));
    assert_eq!(address_of(&config(false, false, true, 7878, 1)), Address::V6Loopback(7878));
    assert_eq!(address_of(&config(false, false, false, 65535, 1)), Address::V4Any(65535));
    assert_eq!(address_of(&config(false, false, true, 65535, 1)), Address::V6Loopback(65535));
    assert_eq!(Address::V4Any(65535).to_text(), "0.0.0.0:65535");
    assert_eq!(Address::V6Loopback(4464).to_text(), "[::1]:4464");
}

#[test]
fn the_socket_is_bound_at_the_port_that_was_asked_for() {
    for ipv6 in [false, true] {
        for port in [0, 80, 7878, 65535] {
            let steps = startup_plan(&config(true, true, ipv6, port, 2));
            let binds: Vec<&Step> =
                steps.iter().filter(|s| matches!(s, Step::Bind(_))).collect();
            let expected = if ipv6 {
                Step::Bind(Address::V6Loopback(port))
            } else {
                Step::Bind(Address::V4Any(port))
            };
            assert_eq!(binds, vec![&expected]);
        }
    }
}

#[test]
fn fewer_than_two_workers_means_one() {
    for (asked, served) in [(0, 1), (1, 1), (2, 2), (8, 8)] {
        let steps = startup_plan(&config(false, false, false, 80, asked));
        assert_eq!(steps.last(), Some(&Step::Serve(served)));
    }
}

#[test]
fn steps_are_handed_out_in_order() {
    let cfg = config(true, true, false, 7878, 1);
    let plan = startup_plan(&cfg);
    let mut launch = Launch::new(&cfg);
    for step in &plan {
        assert!(!launch.halted());
        assert_eq!(launch.next().as_ref(), Some(step));
    }
    assert_eq!(launch.next(), None);
    assert_eq!(launch.next(), None);
    assert!(!launch.halted());
}

#[test]
fn a_failed_step_ends_the_startup() {
    let cfg = config(false, true, false, 7878, 1);
    let mut launch = Launch::new(&cfg);
    assert_eq!(launch.next(), Some(Step::ChangeDir("/srv".to_string())));
    assert_eq!(launch.next(), Some(Step::Chroot("/srv".to_string())));
    assert_eq!(launch.fail("-1"), "Chrooting failed with code -1!");
    assert!(launch.halted());
    assert_eq!(launch.next(), None);
    assert_eq!(launch.next(), None);
}

#[test]
fn a_failure_before_any_step_is_said_as_it_is() {
    let mut launch = Launch::new(&config(false, false, false, 7878, 1));
    assert_eq!(launch.fail("no luck"), "no luck");
    assert_eq!(launch.next(), None);
}

#[test]
fn every_failure_has_its_message() {
    let dir = "/srv".to_string();
    assert_eq!(
        failure_message(Some(&Step::Daemonize), "Err(Fork)"),
        "Daemonizing failed! Err(Fork)"
    );
    assert_eq!(
        failure_message(Some(&Step::ChangeDir(dir.clone())), "ENOENT"),
        "Could not change root to '/srv'!"
    );
    assert_eq!(
        failure_message(Some(&Step::Chroot(dir)), "-1"),
        "Chrooting failed with code -1!"
    );
    assert_eq!(
        failure_message(Some(&Step::Bind(Address::V4Any(80))), "denied"),
        "`Server::http(...)` failed with denied!"
    );
    assert_eq!(
        failure_message(Some(&Step::Bind(Address::V6Loopback(80))), "denied"),
        "`Server::http(...)` failed with denied"
    );
    assert_eq!(
        failure_message(Some(&Step::Serve(1)), "broken pipe"),
        "`request.respond(...)` failed with broken pipe!"
    );
    assert_eq!(failure_message(Some(&say("hello")), "odd"), "odd");
    assert_eq!(failure_message(None, "odd"), "odd");
}

#[test]
fn a_write_failure_ends_a_lone_worker_only() {
    assert_eq!(on_write_failure(0), WriteFailure::StopServer);
    assert_eq!(on_write_failure(1), WriteFailure::StopServer);
    assert_eq!(on_write_failure(2), WriteFailure::StopWorker);
    assert_eq!(on_write_failure(16), WriteFailure::StopWorker);
}

#[test]
fn a_write_failure_of_the_lone_worker_is_the_failure_of_serving() {
    let cfg = config(false, false, false, 7878, 1);
    let mut launch = Launch::new(&cfg);
    let mut last = None;
    while let Some(step) = launch.next() {
        last = Some(step);
    }
    assert_eq!(last, Some(Step::Serve(1)));
    assert_eq!(on_write_failure(1), WriteFailure::StopServer);
    assert_eq!(launch.fail("broken pipe"), "`request.respond(...)` failed with broken pipe!");
    assert!(launch.halted());
}

#[test]
fn a_step_is_copied_whole() {
    let steps = startup_plan(&config(true, true, true, 1, 3));
    for step in &steps {
        assert_eq!(&step.copy(), step);
    }
}
