//! The model of a device, from its name and its services.
use crate::device::DeviceModel;
use crate::gatt::has_characteristic;
use crate::text::contains;
use crate::text::to_lowercase;
use crate::uuids::ServiceUuids;
use vstd::prelude::*;
use vstd::string::*;

verus! {

/// The model that a name tells, where `lower` is the name in lower case.
pub open spec fn model_by_name(name: Seq<char>, lower: Seq<char>) -> Option<DeviceModel> {
    if crate::text::occurs(name, "VOLCANO"@) {
        Some(DeviceModel::VolcanoHybrid)
    } else if crate::text::occurs(name, "VY"@) || crate::text::occurs(lower, "venty"@) {
        Some(DeviceModel::Venty)
    } else if crate::text::occurs(name, "VZ"@) || crate::text::occurs(lower, "veazy"@) {
        Some(DeviceModel::Veazy)
    } else if crate::text::occurs(lower, "crafty"@) {
        Some(DeviceModel::Crafty)
    } else {
        None
    }
}

/// The model that the services tell.
pub open spec fn model_by_services(services: Seq<u128>, uuids: ServiceUuids) -> Option<DeviceModel> {
    if services.contains(uuids.volcano_state) || services.contains(uuids.volcano_control) {
        Some(DeviceModel::VolcanoHybrid)
    } else if services.contains(uuids.venty_primary) {
        Some(DeviceModel::Venty)
    } else if services.contains(uuids.crafty_1) || services.contains(uuids.crafty_2)
        || services.contains(uuids.crafty_3) {
        Some(DeviceModel::Crafty)
    } else {
        None
    }
}

/// The model: by name where the name tells it, else by the services.
pub open spec fn model_of(
    name: Option<Seq<char>>,
    services: Seq<u128>,
    uuids: ServiceUuids,
) -> Option<DeviceModel> {
    let named = match name {
        Some(n) => model_by_name(n, crate::text::lowercase(n)),
        None => None,
    };
    match named {
        Some(model) => Some(model),
        None => model_by_services(services, uuids),
    }
}

/// The model that a name tells, given the name in lower case as well.
pub fn detect_by_name(name: &str, lower: &str) -> (r: Option<DeviceModel>)
    ensures
        r == model_by_name(name@, lower@),
{
    if contains(name, "VOLCANO") {
        Some(DeviceModel::VolcanoHybrid)
    } else if contains(name, "VY") || contains(lower, "venty") {
        Some(DeviceModel::Venty)
    } else if contains(name, "VZ") || contains(lower, "veazy") {
        Some(DeviceModel::Veazy)
    } else if contains(lower, "crafty") {
        Some(DeviceModel::Crafty)
    } else {
        None
    }
}

/// The model that the services tell.
pub fn detect_by_services(services: &[u128], uuids: &ServiceUuids) -> (r: Option<DeviceModel>)
    ensures
        r == model_by_services(services@, *uuids),
{
    if has_characteristic(services, uuids.volcano_state) || has_characteristic(
        services,
        uuids.volcano_control,
    ) {
        Some(DeviceModel::VolcanoHybrid)
    } else if has_characteristic(services, uuids.venty_primary) {
        Some(DeviceModel::Venty)
    } else if has_characteristic(services, uuids.crafty_1) || has_characteristic(
        services,
        uuids.crafty_2,
    ) || has_characteristic(services, uuids.crafty_3) {
        Some(DeviceModel::Crafty)
    } else {
        None
    }
}

/// Auto-detect the device model from its advertised name and BLE services.
pub fn detect_model(name: Option<&str>, services: &[u128], uuids: &ServiceUuids) -> (r: Option<
    DeviceModel,
>)
    ensures
        r == model_of(
            match name {
                Some(n) => Some(n@),
                None => None,
            },
            services@,
            *uuids,
        ),
{
    if let Some(n) = name {
        let lower = to_lowercase(n);
        if let Some(model) = detect_by_name(n, lower.as_str()) {
            return Some(model);
        }
    }
    detect_by_services(services, uuids)
}

/// The model that a device is driven as: a Venty where nothing else is known.
pub fn driver_for(detected: Option<DeviceModel>) -> (r: DeviceModel)
    ensures
        r == match detected {
            Some(model) => model,
            None => DeviceModel::Venty,
        },
{
    match detected {
        Some(model) => model,
        None => DeviceModel::Venty,
    }
}

/// A name that tells a model decides, whatever the services.
pub proof fn law_name_comes_first(name: Seq<char>, services: Seq<u128>, uuids: ServiceUuids)
    ensures
        model_by_name(name, crate::text::lowercase(name)) is Some ==> model_of(
            Some(name),
            services,
            uuids,
        ) == model_by_name(name, crate::text::lowercase(name)),
        crate::text::occurs(name, "VOLCANO"@) ==> model_of(Some(name), services, uuids) == Some(
            DeviceModel::VolcanoHybrid,
        ),
{
}

} // verus!
