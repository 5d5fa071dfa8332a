//! The device registry facade. The persistent registry behind it is an
//! external collaborator that is absent in this scope, so registration hands
//! back a fresh record and every lookup reports the id as unknown — each
//! outcome pinned down exactly.

use vstd::prelude::*;

use crate::config::Config;
use crate::errors::AppError;
use crate::errors::AppResult;
use crate::models::Device;

verus! {

/// Creates device records and answers device queries.
pub struct DeviceService {
    config: Config,
}

impl DeviceService {
    /// A fresh service carrying the configuration.
    pub fn new(config: Config) -> (r: Self)
        ensures
            r.config_spec() == config,
    {
        DeviceService { config }
    }

    /// The configuration the service was built with.
    pub closed spec fn config_spec(&self) -> Config {
        self.config
    }

    /// A fresh device record for the user; nothing is persisted yet.
    pub fn register_device(&self, user_id: u128, name: String) -> (r: AppResult<Device>)
        ensures
            r matches Ok(d) && d.name == name && d.user_id == user_id && d.last_seen
                == d.created_at,
    {
        Ok(Device::new(name, user_id))
    }

    /// The devices of one user: none, while the registry is absent.
    pub fn get_user_devices(&self, user_id: u128) -> (r: AppResult<Vec<Device>>)
        ensures
            r matches Ok(v) && v@ == Seq::<Device>::empty(),
    {
        let _ = user_id;
        let v: Vec<Device> = Vec::new();
        proof {
            assert(v@ =~= Seq::<Device>::empty());
        }
        Ok(v)
    }

    /// Look a device up: unknown, while the registry is absent.
    pub fn get_device(&self, id: u128) -> (r: AppResult<Device>)
        ensures
            r == Err::<Device, AppError>(AppError::DeviceNotFound(id)),
    {
        Err(AppError::DeviceNotFound(id))
    }

    /// Touch a device's `last_seen`: reports the id as unknown, like the
    /// lookup it rests on.
    pub fn update_device_status(&self, id: u128) -> (r: AppResult<Device>)
        ensures
            r == Err::<Device, AppError>(AppError::DeviceNotFound(id)),
    {
        let mut device = match self.get_device(id) {
            Ok(d) => d,
            Err(e) => {
                return Err(e);
            },
        };
        device.update_last_seen();
        Ok(device)
    }

    /// Check that a device belongs to a user: reports the device as unknown,
    /// like the lookup it rests on.
    pub fn verify_device(&self, device_id: u128, user_id: u128) -> (r: AppResult<bool>)
        ensures
            r == Err::<bool, AppError>(AppError::DeviceNotFound(device_id)),
    {
        let device = match self.get_device(device_id) {
            Ok(d) => d,
            Err(e) => {
                return Err(e);
            },
        };
        if device.user_id != user_id {
            return Err(AppError::DeviceUnauthorized(device_id));
        }
        Ok(true)
    }

    /// Remove a device after checking ownership: reports the device as
    /// unknown, like the check it rests on.
    pub fn remove_device(&self, id: u128, user_id: u128) -> (r: AppResult<()>)
        ensures
            r == Err::<(), AppError>(AppError::DeviceNotFound(id)),
    {
        match self.verify_device(id, user_id) {
            Ok(_) => Ok(()),
            Err(e) => Err(e),
        }
    }
}

} // verus!
