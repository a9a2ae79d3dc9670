//! Everything one provisioning run is given, checked before anything touches
//! the device.

use vstd::prelude::*;
use crate::config::ProvisionConfig;
use crate::storage::{root_partition_of, root_partition_path};
use crate::text::has_substring;
use crate::validate::{
    hostname_ok, is_emmc_device, is_valid_hostname, validate_root_password, PasswordError,
    EMMC_DEVICE_MARK, MIN_PASSWORD_CHARS,
};

verus! {

/// Why operator input was refused.
#[derive(Debug, Clone, Copy, PartialEq, Eq, Structural)]
pub enum InputError {
    /// The device path does not name an eMMC device.
    NotEmmcDevice,
    /// The host name holds something other than letters, digits, `.` and `-`,
    /// or is empty.
    InvalidHostname,
    /// The root password is empty or too short.
    InvalidPassword(PasswordError),
}

pub struct ProvisionJob {
    pub config: ProvisionConfig,
    /// The block device to provision, such as `/dev/mmcblk0`.
    pub device_path: String,
    /// Its first partition, which becomes the root.
    pub root_partition_path: String,
    /// A built kernel tree.
    pub kernel_path: String,
    /// The device tree blob the boot loader hands the kernel, by file name.
    pub dtb_file: String,
    pub hostname: String,
    pub root_password: String,
}

impl ProvisionJob {
    /// Checks the operator's input (the device first, then the host name, then
    /// the password) and derives the root partition from the device.
    pub fn new(
        config: ProvisionConfig,
        device_path: &str,
        kernel_path: &str,
        dtb_file: &str,
        hostname: &str,
        root_password: &str,
    ) -> (r: Result<ProvisionJob, InputError>)
        ensures
            r is Err ==> r == Err::<ProvisionJob, InputError>(
                if !has_substring(device_path@, EMMC_DEVICE_MARK@) {
                    InputError::NotEmmcDevice
                } else if !hostname_ok(hostname@) {
                    InputError::InvalidHostname
                } else if root_password@.len() == 0 {
                    InputError::InvalidPassword(PasswordError::Empty)
                } else {
                    InputError::InvalidPassword(PasswordError::TooShort)
                },
            ),
            r is Ok <==> has_substring(device_path@, EMMC_DEVICE_MARK@) && hostname_ok(hostname@)
                && root_password@.len() >= MIN_PASSWORD_CHARS,
            r matches Ok(job) ==> {
                &&& job.config == config
                &&& job.device_path@ == device_path@
                &&& job.root_partition_path@ == root_partition_of(device_path@)
                &&& job.kernel_path@ == kernel_path@
                &&& job.dtb_file@ == dtb_file@
                &&& job.hostname@ == hostname@
                &&& job.root_password@ == root_password@
            },
    {
        if !is_emmc_device(device_path) {
            return Err(InputError::NotEmmcDevice);
        }
        if !is_valid_hostname(hostname) {
            return Err(InputError::InvalidHostname);
        }
        match validate_root_password(root_password) {
            Err(e) => {
                return Err(InputError::InvalidPassword(e));
            },
            Ok(()) => {},
        }
        Ok(ProvisionJob {
            config,
            device_path: String::from_str(device_path),
            root_partition_path: root_partition_path(device_path),
            kernel_path: String::from_str(kernel_path),
            dtb_file: String::from_str(dtb_file),
            hostname: String::from_str(hostname),
            root_password: String::from_str(root_password),
        })
    }
}

} // verus!
