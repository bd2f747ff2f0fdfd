use vstd::prelude::*;

use crate::effect::StatusReply;
use crate::text::join;

verus! {

/// Body of a registration sent by the first client, which stood in for the
/// token with a fixed device identifier.
pub struct EnrollmentRequest {
    pub first_name: String,
    pub last_name: String,
    pub email: String,
    pub role: String,
    pub fingerprint_hash: String,
    pub device_id: String,
}

/// The device identifier of the simulated token.
pub open spec fn simulated_device_id() -> Seq<char> {
    "BK-SIMU-001"@
}

/// The registration of a user with the simulated token.
pub fn enrollment_request(
    first_name: String,
    last_name: String,
    email: String,
    role: String,
    hash: String,
) -> (r: EnrollmentRequest)
    ensures
        r.first_name == first_name,
        r.last_name == last_name,
        r.email == email,
        r.role == role,
        r.fingerprint_hash == hash,
        r.device_id@ == simulated_device_id(),
{
    EnrollmentRequest {
        first_name,
        last_name,
        email,
        role,
        fingerprint_hash: hash,
        device_id: String::from_str("BK-SIMU-001"),
    }
}

/// What a registration with the simulated token returns to the form.
pub fn registration_result(reply: StatusReply) -> (r: Result<String, String>)
    ensures
        match reply {
            StatusReply::Success => r matches Ok(t) && t@
                == "Serveur : Utilisateur créé avec succès"@,
            StatusReply::Refused(status) => r matches Err(t) && t@ == "Serveur : Erreur "@
                + status@,
            StatusReply::Unreachable(e) => r matches Err(t) && t@ == "Echec connexion : "@ + e@,
        },
{
    match reply {
        StatusReply::Success => Ok(String::from_str("Serveur : Utilisateur créé avec succès")),
        StatusReply::Refused(status) => Err(join("Serveur : Erreur ", status.as_str())),
        StatusReply::Unreachable(e) => Err(join("Echec connexion : ", e.as_str())),
    }
}

} // verus!
