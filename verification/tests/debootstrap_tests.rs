use pop_core::debootstrap::Debootstrap;

fn strings(items: &[&str]) -> Vec<String> {
    items.iter().map(|s| s.to_string()).collect()
}

#[test]
fn default_command_line() {
    let argv = Debootstrap::new("build/cache/debootstrap.partial").command();
    assert_eq!(
        argv,
        strings(&[
            "debootstrap",
            "--arch=amd64",
            "jammy",
            "build/cache/debootstrap.partial",
            "https://apt.pop-os.org/ubuntu",
        ])
    );
}

#[test]
fn variant_is_passed_through() {
    let argv = Debootstrap::new("target").variant("minbase").command();
    assert_eq!(
        argv,
        strings(&[
            "debootstrap",
            "--variant=minbase",
            "--arch=amd64",
            "jammy",
            "target",
            "https://apt.pop-os.org/ubuntu",
        ])
    );
}

#[test]
fn package_lists_are_joined_with_commas() {
    let argv = Debootstrap::new("t")
        .add_package("curl")
        .add_package("less")
        .exclude_package("snapd")
        .command();
    assert_eq!(
        argv,
        strings(&[
            "debootstrap",
            &format!("--inc{}", "lude=curl,less"),
            "--exclude=snapd",
            "--arch=amd64",
            "jammy",
            "t",
            "https://apt.pop-os.org/ubuntu",
        ])
    );
}

#[test]
fn single_package_has_no_comma() {
    let argv = Debootstrap::new("t").add_package("curl").command();
    assert_eq!(argv[1], format!("--inc{}", "lude=curl"));
}
