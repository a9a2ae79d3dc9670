use emmc_provisioner::config::ProvisionConfig;
use emmc_provisioner::job::{InputError, ProvisionJob};
use emmc_provisioner::validate::{is_emmc_device, is_valid_hostname, validate_root_password, PasswordError};

#[test]
fn hostname_accepts_letters_digits_dots_and_hyphens() {
    assert!(is_valid_hostname("board1"));
    assert!(is_valid_hostname("my-board.local"));
    assert!(is_valid_hostname("A"));
    assert!(is_valid_hostname("0.0-9"));
}

#[test]
fn hostname_rejects_empty() {
    assert!(!is_valid_hostname(""));
}

#[test]
fn hostname_rejects_whitespace() {
    assert!(!is_valid_hostname(" "));
    assert!(!is_valid_hostname("board 1"));
    assert!(!is_valid_hostname(" board1"));
    assert!(!is_valid_hostname("board1\n"));
    assert!(!is_valid_hostname("board\t1"));
}

#[test]
fn hostname_rejects_other_characters() {
    assert!(!is_valid_hostname("board_1"));
    assert!(!is_valid_hostname("board@home"));
    assert!(!is_valid_hostname("bóard"));
    assert!(!is_valid_hostname("board/1"));
}

#[test]
fn password_rejects_empty() {
    assert_eq!(validate_root_password(""), Err(PasswordError::Empty));
}

#[test]
fn password_rejects_shorter_than_four() {
    assert_eq!(validate_root_password("a"), Err(PasswordError::TooShort));
    assert_eq!(validate_root_password("abc"), Err(PasswordError::TooShort));
    assert_eq!(validate_root_password("ábc"), Err(PasswordError::TooShort));
}

#[test]
fn password_accepts_four_and_longer() {
    assert_eq!(validate_root_password("abcd"), Ok(()));
    assert_eq!(validate_root_password("ábcd"), Ok(()));
    assert_eq!(validate_root_password("a much longer password"), Ok(()));
}

#[test]
fn emmc_device_check() {
    assert!(is_emmc_device("/dev/mmcblk0"));
    assert!(is_emmc_device("/dev/mmcblk1"));
    assert!(!is_emmc_device("/dev/sda"));
    assert!(!is_emmc_device("/dev/mmcbl"));
    assert!(!is_emmc_device(""));
}

#[test]
fn job_derives_root_partition() {
    let job = ProvisionJob::new(
        ProvisionConfig::standard(),
        "/dev/mmcblk0",
        "/mnt/pendrive/linux-6.1.57",
        "rk322x-box.dtb",
        "board1",
        "secret",
    )
    .unwrap();
    assert_eq!(job.root_partition_path, "/dev/mmcblk0p1");
    assert_eq!(job.device_path, "/dev/mmcblk0");
    assert_eq!(job.kernel_path, "/mnt/pendrive/linux-6.1.57");
    assert_eq!(job.dtb_file, "rk322x-box.dtb");
    assert_eq!(job.hostname, "board1");
    assert_eq!(job.root_password, "secret");
}

fn job_error(device: &str, hostname: &str, password: &str) -> InputError {
    match ProvisionJob::new(ProvisionConfig::standard(), device, "/k", "a.dtb", hostname, password) {
        Ok(_) => panic!("input accepted"),
        Err(e) => e,
    }
}

#[test]
fn job_rejects_non_emmc_device_first() {
    assert_eq!(job_error("/dev/sda", "bad name", ""), InputError::NotEmmcDevice);
}

#[test]
fn job_rejects_invalid_hostname() {
    assert_eq!(job_error("/dev/mmcblk0", "bad name", ""), InputError::InvalidHostname);
}

#[test]
fn job_rejects_invalid_password() {
    assert_eq!(job_error("/dev/mmcblk0", "board1", ""), InputError::InvalidPassword(PasswordError::Empty));
    assert_eq!(
        job_error("/dev/mmcblk0", "board1", "abc"),
        InputError::InvalidPassword(PasswordError::TooShort)
    );
}
