//! The immutable snapshot of environment and application identity that is
//! attached to every collected event. Built once at controller construction
//! and never mutated afterwards.

use vstd::prelude::*;

verus! {

/// Identity strings supplied once by the host application. All fields are
/// opaque to this core: empty strings are accepted, and no validation is
/// applied beyond presence.
pub struct EventInfo {
    pub locale: String,
    pub os: String,
    pub os_version: String,
    pub device: String,
    pub arch: String,
    pub app_name: String,
    pub app_version: String,
    pub app_update_channel: String,
    pub app_build_id: String,
    pub app_platform: String,
}

impl EventInfo {
    /// Builds a context from the caller's identity strings.
    pub fn new(
        locale: String,
        os: String,
        os_version: String,
        device: String,
        app_name: String,
        app_version: String,
        app_update_channel: String,
        app_build_id: String,
        app_platform: String,
        arch: String,
    ) -> (info: EventInfo)
        ensures
            info.locale == locale,
            info.os == os,
            info.os_version == os_version,
            info.device == device,
            info.app_name == app_name,
            info.app_version == app_version,
            info.app_update_channel == app_update_channel,
            info.app_build_id == app_build_id,
            info.app_platform == app_platform,
            info.arch == arch,
    {
        EventInfo {
            locale,
            os,
            os_version,
            device,
            app_name,
            app_version,
            app_update_channel,
            app_build_id,
            app_platform,
            arch,
        }
    }

    /// A fully independent copy, so the context can be handed to the worker
    /// and to event-producing code without aliasing concerns.
    pub fn clone(&self) -> (c: EventInfo)
        ensures
            c == *self,
    {
        EventInfo {
            locale: self.locale.clone(),
            os: self.os.clone(),
            os_version: self.os_version.clone(),
            device: self.device.clone(),
            app_name: self.app_name.clone(),
            app_version: self.app_version.clone(),
            app_update_channel: self.app_update_channel.clone(),
            app_build_id: self.app_build_id.clone(),
            app_platform: self.app_platform.clone(),
            arch: self.arch.clone(),
        }
    }
}

} // verus!
