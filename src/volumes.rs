use vstd::prelude::*;

use crate::effect::{Effect, ServerReply};
use crate::protocol::{ApiMessage, VolumeInitInfo, VolumeInitResponse};
use crate::share_protocol::{SuccessData, UsbResponse};
use crate::state::AppState;
use crate::text::join;

verus! {

/// How long the simulated token takes to describe its disk, in milliseconds.
pub const SIMULATED_SCAN_DELAY_MS: u64 = 500;

/// How long the simulated token takes to create a volume, in milliseconds.
pub const SIMULATED_CREATE_DELAY_MS: u64 = 2000;

/// Free space, in GB, under which the disk is shown as nearly full.
pub const LOW_SPACE_GB: u32 = 5;

/// The disk description given by the simulated token.
pub open spec fn is_simulated_disk(data: UsbResponse) -> bool {
    data matches UsbResponse::Success(
        SuccessData::DeviceInfo { device_name, device_size, device_available_size, mount_id },
    ) && device_name@ == "Clé USB de Willy"@ && device_size == 64 && device_available_size == 45
        && mount_id == 2
}

/// The scan button, enabled only while the token is plugged in: the token's
/// description of its disk is simulated.
pub fn start_scan(app: &mut AppState) -> (r: Effect)
    ensures
        !old(app).usb_connected ==> *final(app) == *old(app) && r is Nothing,
        old(app).usb_connected ==> {
            &&& *final(app) == (AppState { volume_status: final(app).volume_status, ..*old(app) })
            &&& final(app).volume_status@ == "🔌 Recherche des infos du disque..."@
            &&& r matches Effect::DeliverLater(ApiMessage::VolumeInfoReceived(data), delay)
                && is_simulated_disk(data) && delay == SIMULATED_SCAN_DELAY_MS
        },
{
    if !app.usb_connected {
        return Effect::Nothing;
    }
    app.volume_status = String::from_str("🔌 Recherche des infos du disque...");
    let data = UsbResponse::Success(
        SuccessData::DeviceInfo {
            device_name: String::from_str("Clé USB de Willy"),
            device_size: 64,
            device_available_size: 45,
            mount_id: 2,
        },
    );
    Effect::DeliverLater(ApiMessage::VolumeInfoReceived(data), SIMULATED_SCAN_DELAY_MS)
}

/// Whether the volume form is shown: a disk is known and has free space.
pub fn can_create_volume(app: &AppState) -> (r: bool)
    ensures
        r == (app.device_name@.len() > 0 && app.device_available_space > 0),
{
    !app.device_name.as_str().is_empty() && app.device_available_space > 0
}

/// The largest size, in GB, that the volume form offers.
pub fn max_volume_size(app: &AppState) -> (r: u32)
    ensures
        app.device_available_space > 0 ==> r == app.device_available_space,
        app.device_available_space == 0 ==> r == 1,
{
    if app.device_available_space > 0 {
        app.device_available_space
    } else {
        1
    }
}

/// Whether the disk's free space is shown as nearly exhausted.
pub fn is_low_space(available: u32) -> (r: bool)
    ensures
        r == (available < LOW_SPACE_GB),
{
    available < LOW_SPACE_GB
}

/// The create button, enabled only while the token is plugged in: asks the
/// server whether the name is free on the disk.
pub fn start_volume_creation(app: &mut AppState) -> (r: Effect)
    ensures
        !old(app).usb_connected ==> *final(app) == *old(app) && r is Nothing,
        old(app).usb_connected ==> {
            &&& *final(app) == (AppState { volume_status: final(app).volume_status, ..*old(app) })
            &&& final(app).volume_status@ == "🛠️ SIMULATION : Init Serveur..."@
            &&& r matches Effect::CheckVolume { url, token, query }
                && url@ == old(app).config.api_url@ + "/verify_volume"@
                && token == old(app).server_token && query.name == old(app).volume_created_name
                && query.disk_id == old(app).device_name
        },
{
    if !app.usb_connected {
        return Effect::Nothing;
    }
    app.volume_status = String::from_str("🛠️ SIMULATION : Init Serveur...");
    let url = join(app.config.api_url.as_str(), "/verify_volume");
    let query = VolumeInitInfo {
        name: app.volume_created_name.clone(),
        disk_id: app.device_name.clone(),
    };
    Effect::CheckVolume { url, token: app.server_token.clone(), query }
}

/// `e` delivers a volume status whose text is `text`.
pub open spec fn is_volume_status(e: Effect, text: Seq<char>) -> bool {
    e matches Effect::Deliver(ApiMessage::VolumeCreationStatus(t)) && t@ == text
}

/// What follows the server's answer on a volume name `name`: a name already
/// taken, or a failed request, is reported; a free name is announced and the
/// volume is created on the (simulated) token under the server's identifier.
pub fn volume_check_outcome(reply: ServerReply<VolumeInitResponse>, name: &str) -> (r: Vec<
    Effect,
>)
    ensures
        match reply {
            ServerReply::Accepted(data) => if data.exists {
                r@.len() == 1 && is_volume_status(
                    r@[0],
                    "Erreur le vomue '"@ + name@ + "' existe déjà"@,
                )
            } else {
                &&& r@.len() == 2
                &&& is_volume_status(r@[0], "Nom validé par le serveur. Écriture sur la clé"@)
                &&& r@[1] matches Effect::DeliverLater(
                    ApiMessage::VolumeCreationSuccess(
                        UsbResponse::Success(SuccessData::VolumeCreated { encrypted_key, volume_id }),
                    ),
                    delay,
                ) && encrypted_key@ == "SIMULATED-KEY-XYZ-999"@ && volume_id == data.volume_id
                    && delay == SIMULATED_CREATE_DELAY_MS
            },
            ServerReply::Unreadable(_) => r@.len() == 1 && is_volume_status(
                r@[0],
                " Erreur lecture réponse serveur"@,
            ),
            ServerReply::Refused(status) => r@.len() == 1 && is_volume_status(
                r@[0],
                " Refus serveur: "@ + status@,
            ),
            ServerReply::Unreachable(e) => r@.len() == 1 && is_volume_status(
                r@[0],
                " Erreur Réseau: "@ + e@,
            ),
        },
{
    let mut effects: Vec<Effect> = Vec::new();
    match reply {
        ServerReply::Accepted(data) => {
            if data.exists {
                let a = join("Erreur le vomue '", name);
                let text = join(a.as_str(), "' existe déjà");
                effects.push(Effect::Deliver(ApiMessage::VolumeCreationStatus(text)));
            } else {
                effects.push(
                    Effect::Deliver(
                        ApiMessage::VolumeCreationStatus(
                            String::from_str("Nom validé par le serveur. Écriture sur la clé"),
                        ),
                    ),
                );
                let created = UsbResponse::Success(
                    SuccessData::VolumeCreated {
                        encrypted_key: String::from_str("SIMULATED-KEY-XYZ-999"),
                        volume_id: data.volume_id,
                    },
                );
                effects.push(
                    Effect::DeliverLater(
                        ApiMessage::VolumeCreationSuccess(created),
                        SIMULATED_CREATE_DELAY_MS,
                    ),
                );
            }
        },
        ServerReply::Unreadable(_) => {
            effects.push(
                Effect::Deliver(
                    ApiMessage::VolumeCreationStatus(
                        String::from_str(" Erreur lecture réponse serveur"),
                    ),
                ),
            );
        },
        ServerReply::Refused(status) => {
            effects.push(
                Effect::Deliver(
                    ApiMessage::VolumeCreationStatus(join(" Refus serveur: ", status.as_str())),
                ),
            );
        },
        ServerReply::Unreachable(e) => {
            effects.push(
                Effect::Deliver(
                    ApiMessage::VolumeCreationStatus(join(" Erreur Réseau: ", e.as_str())),
                ),
            );
        },
    }
    effects
}

} // verus!
