use hostfacts::cpu::{cpu_fact, format_cpu_info};
use hostfacts::failure::{answered, ReadoutFailure};
use hostfacts::info::{
    get_battery, get_de, get_distro, get_gpu, get_kernel, get_model, get_packages,
    get_resolution, get_shell, get_terminal, get_user, get_wm,
};
use hostfacts::packages::{Manager, PackageCount};
use hostfacts::shell::{shell_query, ShellChoice, ShellForm, ShellQuery};
use libmacchina::traits::ReadoutError;

fn failures() -> Vec<ReadoutFailure> {
    vec![
        ReadoutFailure::MetricNotAvailable,
        ReadoutFailure::NotImplemented,
        ReadoutFailure::Other("missing".to_string()),
        ReadoutFailure::Warning("odd".to_string()),
    ]
}

#[test]
fn cpu_line() {
    assert_eq!(
        format_cpu_info("Intel(R) Core(TM) i5-8265U CPU @ 1.60GHz", 8),
        "Intel(R) Core(TM) i5-8265U CPU @ 1.60GHz (8)"
    );
}

#[test]
fn cpu_line_of_an_empty_name() {
    assert_eq!(format_cpu_info("", 0), " (0)");
}

#[test]
fn cpu_line_keeps_letters_outside_ascii() {
    assert_eq!(format_cpu_info("Prozessor für Tests", 16), "Prozessor für Tests (16)");
}

#[test]
fn cpu_from_two_answers() {
    assert_eq!(
        cpu_fact(Ok(4), Ok("AMD Ryzen 3".to_string())),
        Ok("AMD Ryzen 3 (4)".to_string())
    );
}

#[test]
fn cpu_without_cores() {
    assert_eq!(
        cpu_fact(Err(ReadoutFailure::MetricNotAvailable), Ok("AMD Ryzen 3".to_string())),
        Err(ReadoutFailure::MetricNotAvailable)
    );
}

#[test]
fn cpu_without_a_name() {
    assert_eq!(
        cpu_fact(Ok(4), Err(ReadoutFailure::NotImplemented)),
        Err(ReadoutFailure::NotImplemented)
    );
}

#[test]
fn cpu_without_either_reports_the_cores() {
    assert_eq!(
        cpu_fact(
            Err(ReadoutFailure::Other("cores".to_string())),
            Err(ReadoutFailure::Warning("name".to_string()))
        ),
        Err(ReadoutFailure::Other("cores".to_string()))
    );
}

#[test]
fn cpu_twice_is_the_same() {
    assert_eq!(cpu_fact(Ok(2), Ok("x".to_string())), cpu_fact(Ok(2), Ok("x".to_string())));
}

#[test]
fn gpu_empty_list_is_no_failure() {
    assert_eq!(get_gpu(Ok(Vec::new())), Ok(Vec::<String>::new()));
}

#[test]
fn gpu_names_in_the_order_given() {
    let names = vec!["Intel UHD Graphics 620".to_string(), "NVIDIA GeForce MX250".to_string()];
    assert_eq!(get_gpu(Ok(names.clone())), Ok(names));
}

#[test]
fn gpu_failure_passes_through() {
    for failure in failures() {
        assert_eq!(get_gpu(Err(failure.clone())), Err(failure));
    }
}

#[test]
fn model_is_handed_on() {
    assert_eq!(get_model(Ok("ThinkPad T490".to_string())), Ok("ThinkPad T490".to_string()));
    for failure in failures() {
        assert_eq!(get_model(Err(failure.clone())), Err(failure));
    }
}

#[test]
fn resolution_is_handed_on() {
    assert_eq!(
        get_resolution(Ok("1920x1080, 2560x1440".to_string())),
        Ok("1920x1080, 2560x1440".to_string())
    );
    for failure in failures() {
        assert_eq!(get_resolution(Err(failure.clone())), Err(failure));
    }
}

#[test]
fn user_is_handed_on() {
    assert_eq!(get_user(Ok("ada".to_string())), Ok("ada".to_string()));
    for failure in failures() {
        assert_eq!(get_user(Err(failure.clone())), Err(failure));
    }
}

#[test]
fn distro_is_handed_on() {
    assert_eq!(get_distro(Ok("Debian GNU/Linux 12".to_string())), Ok("Debian GNU/Linux 12".to_string()));
    for failure in failures() {
        assert_eq!(get_distro(Err(failure.clone())), Err(failure));
    }
}

#[test]
fn kernel_is_handed_on() {
    assert_eq!(get_kernel(Ok("6.1.0-18-amd64".to_string())), Ok("6.1.0-18-amd64".to_string()));
    for failure in failures() {
        assert_eq!(get_kernel(Err(failure.clone())), Err(failure));
    }
}

#[test]
fn window_manager_is_handed_on() {
    assert_eq!(get_wm(Ok("i3".to_string())), Ok("i3".to_string()));
    for failure in failures() {
        assert_eq!(get_wm(Err(failure.clone())), Err(failure));
    }
}

#[test]
fn desktop_environment_is_handed_on() {
    assert_eq!(get_de(Ok("GNOME".to_string())), Ok("GNOME".to_string()));
    for failure in failures() {
        assert_eq!(get_de(Err(failure.clone())), Err(failure));
    }
}

#[test]
fn shell_is_handed_on() {
    assert_eq!(get_shell(Ok("zsh".to_string())), Ok("zsh".to_string()));
    for failure in failures() {
        assert_eq!(get_shell(Err(failure.clone())), Err(failure));
    }
}

#[test]
fn terminal_is_handed_on() {
    assert_eq!(get_terminal(Ok("alacritty".to_string())), Ok("alacritty".to_string()));
    for failure in failures() {
        assert_eq!(get_terminal(Err(failure.clone())), Err(failure));
    }
}

#[test]
fn an_empty_answer_is_no_failure() {
    assert_eq!(get_de(Ok(String::new())), Ok(String::new()));
    assert_eq!(get_resolution(Ok(String::new())), Ok(String::new()));
}

#[test]
fn shell_is_asked_for_by_name_and_in_use() {
    assert_eq!(
        shell_query(),
        ShellQuery { form: ShellForm::Relative, choice: ShellChoice::Current }
    );
}

#[test]
fn battery_fact_charging() {
    assert_eq!(get_battery(Some(73), Some(true)), Ok("73% [Charging] ".to_string()));
}

#[test]
fn battery_fact_without_a_power_state() {
    assert_eq!(get_battery(Some(73), None), Err("no power".to_string()));
}

#[test]
fn battery_fact_without_a_charge() {
    assert_eq!(get_battery(None, Some(true)), Err("no battery".to_string()));
    assert_eq!(get_battery(None, None), Err("no battery".to_string()));
}

#[test]
fn packages_fact_never_fails() {
    let counts = vec![
        PackageCount { manager: Manager::Cargo, count: 3 },
        PackageCount { manager: Manager::Other("apt".to_string()), count: 120 },
    ];
    assert_eq!(get_packages(&counts), Ok(vec!["120 (apt)".to_string()]));
    assert_eq!(get_packages(&Vec::new()), Ok(Vec::<String>::new()));
}

#[test]
fn a_probe_answer_is_handed_on() {
    let answer: Result<String, ReadoutError> = Ok("zsh".to_string());
    assert_eq!(answered(answer), Ok("zsh".to_string()));
    let cores: Result<usize, ReadoutError> = Ok(8);
    assert_eq!(answered(cores), Ok(8));
}

#[test]
fn a_probe_error_keeps_its_kind() {
    let unavailable: Result<String, ReadoutError> = Err(ReadoutError::MetricNotAvailable);
    assert_eq!(answered(unavailable), Err(ReadoutFailure::MetricNotAvailable));
    let unsupported: Result<String, ReadoutError> = Err(ReadoutError::NotImplemented);
    assert_eq!(answered(unsupported), Err(ReadoutFailure::NotImplemented));
    let other: Result<String, ReadoutError> = Err(ReadoutError::Other("no file".to_string()));
    assert_eq!(answered(other), Err(ReadoutFailure::Other("no file".to_string())));
    let warning: Result<String, ReadoutError> = Err(ReadoutError::Warning("odd".to_string()));
    assert_eq!(answered(warning), Err(ReadoutFailure::Warning("odd".to_string())));
}
