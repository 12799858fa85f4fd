//! Reading the description of the host that is passed at start-up.

use vstd::prelude::*;
use crate::args::{ApplicationInfo, DeviceInfo, Info, PluginInfo};
use crate::decode::{
    field_opt_i32, field_opt_str, present, read_opt_i32, read_opt_str, read_present, string_view,
};
use crate::inbound::{device_info_read_as, read_device_info};
use crate::json::{
    is_null, items, json_is_null, json_items, json_member, json_parse, member, parse, value_text,
    value_texts,
};

verus! {

/// `a` is the reading of `text` as the description of the host application.
pub open spec fn application_read_as(text: Seq<char>, a: ApplicationInfo) -> bool {
    &&& field_opt_str(text, "font"@) == Some(string_view(a.font))
    &&& field_opt_str(text, "language"@) == Some(string_view(a.language))
    &&& field_opt_str(text, "platform"@) == Some(string_view(a.platform))
    &&& field_opt_str(text, "platformVersion"@) == Some(string_view(a.platform_version))
    &&& field_opt_str(text, "version"@) == Some(string_view(a.version))
}

pub(crate) fn read_application(v: &serde_json::Value) -> (r: Option<ApplicationInfo>)
    ensures
        match r {
            Some(a) => application_read_as(value_text(*v), a),
            None => forall|a: ApplicationInfo| !application_read_as(value_text(*v), a),
        },
{
    let font = read_opt_str(v, "font");
    let language = read_opt_str(v, "language");
    let platform = read_opt_str(v, "platform");
    let platform_version = read_opt_str(v, "platformVersion");
    let version = read_opt_str(v, "version");
    match (font, language, platform, platform_version, version) {
        (Some(font), Some(language), Some(platform), Some(platform_version), Some(version)) => Some(
            ApplicationInfo { font, language, platform, platform_version, version },
        ),
        _ => None,
    }
}

/// `p` is the reading of `text` as the description of the plugin.
pub open spec fn plugin_read_as(text: Seq<char>, p: PluginInfo) -> bool {
    &&& field_opt_str(text, "uuid"@) == Some(string_view(p.uuid))
    &&& field_opt_str(text, "version"@) == Some(string_view(p.version))
}

pub(crate) fn read_plugin(v: &serde_json::Value) -> (r: Option<PluginInfo>)
    ensures
        match r {
            Some(p) => plugin_read_as(value_text(*v), p),
            None => forall|p: PluginInfo| !plugin_read_as(value_text(*v), p),
        },
{
    let uuid = read_opt_str(v, "uuid");
    let version = read_opt_str(v, "version");
    match (uuid, version) {
        (Some(uuid), Some(version)) => Some(PluginInfo { uuid, version }),
        _ => None,
    }
}

/// `devices` are the readings of `list`, item by item.
pub open spec fn devices_read_as(list: Seq<Seq<char>>, devices: Seq<DeviceInfo>) -> bool {
    &&& devices.len() == list.len()
    &&& forall|i: int| 0 <= i < list.len() ==> device_info_read_as(list[i], #[trigger] devices[i])
}

/// `devices` is the reading of the member `key` of `obj` as an optional
/// list of devices: nothing where the member is absent or `null`.
pub open spec fn field_devices_read_as(
    obj: Seq<char>,
    key: Seq<char>,
    devices: Option<Vec<DeviceInfo>>,
) -> bool {
    match present(obj, key) {
        None => devices.is_none(),
        Some(t) => match json_items(t) {
            Some(list) => devices.is_some() && devices_read_as(list, devices.unwrap()@),
            None => false,
        },
    }
}

fn read_devices(list: &Vec<serde_json::Value>) -> (r: Option<Vec<DeviceInfo>>)
    ensures
        match r {
            Some(v) => devices_read_as(value_texts(list@), v@),
            None => forall|v: Seq<DeviceInfo>| !devices_read_as(value_texts(list@), v),
        },
{
    let ghost all = value_texts(list@);
    let mut out: Vec<DeviceInfo> = Vec::new();
    let n = list.len();
    let mut i: usize = 0;
    while i < n
        invariant
            n == list.len(),
            all == value_texts(list@),
            i <= n,
            out.len() == i,
            forall|j: int| 0 <= j < i ==> device_info_read_as(all[j], #[trigger] out@[j]),
        decreases n - i,
    {
        assert(all[i as int] == value_text(list[i as int]));
        match read_device_info(&list[i]) {
            Some(d) => {
                out.push(d);
            },
            None => {
                assert forall|v: Seq<DeviceInfo>| !devices_read_as(all, v) by {
                    if devices_read_as(all, v) {
                        assert(device_info_read_as(all[i as int], v[i as int]));
                    }
                }
                return None;
            },
        }
        i += 1;
    }
    Some(out)
}

fn read_opt_devices(obj: &serde_json::Value, key: &str) -> (r: Option<Option<Vec<DeviceInfo>>>)
    ensures
        match r {
            Some(d) => field_devices_read_as(value_text(*obj), key@, d),
            None => forall|d: Option<Vec<DeviceInfo>>|
                !field_devices_read_as(value_text(*obj), key@, d),
        },
{
    match read_present(obj, key) {
        None => Some(None),
        Some(t) => match items(t) {
            Some(list) => match read_devices(list) {
                Some(v) => Some(Some(v)),
                None => None,
            },
            None => None,
        },
    }
}

/// `info` is the reading of `text` as the description of the host.
pub open spec fn info_read_as(text: Seq<char>, info: Info) -> bool {
    &&& match json_member(text, "application"@) {
        Some(a) => application_read_as(a, info.application),
        None => false,
    }
    &&& field_opt_i32(text, "devicePixelRatio"@) == Some(info.device_pixel_ratio)
    &&& field_devices_read_as(text, "devices"@, info.devices)
    &&& match json_member(text, "plugin"@) {
        Some(p) => plugin_read_as(p, info.plugin),
        None => false,
    }
}

pub(crate) fn read_info(v: &serde_json::Value) -> (r: Option<Info>)
    ensures
        match r {
            Some(info) => info_read_as(value_text(*v), info),
            None => forall|info: Info| !info_read_as(value_text(*v), info),
        },
{
    let application = match member(v, "application") {
        Some(a) => read_application(a),
        None => None,
    };
    let ratio = read_opt_i32(v, "devicePixelRatio");
    let devices = read_opt_devices(v, "devices");
    let plugin = match member(v, "plugin") {
        Some(p) => read_plugin(p),
        None => None,
    };
    match (application, ratio, devices, plugin) {
        (Some(application), Some(device_pixel_ratio), Some(devices), Some(plugin)) => Some(
            Info { application, device_pixel_ratio, devices, plugin },
        ),
        _ => None,
    }
}

/// What the text of an `-info` argument gives: nothing where it holds
/// `null`, else its reading as a description of the host.
pub open spec fn optional_info_read_as(text: Seq<char>, info: Option<Info>) -> bool {
    match json_parse(text) {
        Some(t) => if json_is_null(t) {
            info.is_none()
        } else {
            info.is_some() && info_read_as(t, info.unwrap())
        },
        None => false,
    }
}

/// Reads the text of an `-info` argument. The outer `None` says that the
/// text is neither `null` nor a description of the host.
pub fn read_optional_info(text: &str) -> (r: Option<Option<Info>>)
    ensures
        match r {
            Some(info) => optional_info_read_as(text@, info),
            None => forall|info: Option<Info>| !optional_info_read_as(text@, info),
        },
{
    match parse(text) {
        None => None,
        Some(v) => if is_null(&v) {
            Some(None)
        } else {
            match read_info(&v) {
                Some(info) => Some(Some(info)),
                None => None,
            }
        },
    }
}

} // verus!
