//! Registering a webhook for firewall events.

use crate::error::Error;
use crate::firewall::{webhook_accepted, Firewall};
use crate::urls::parsed_url;
use vstd::prelude::*;

verus! {

/// Arguments of the register-webhook job.
#[derive(Clone, Debug)]
pub struct RegisterWebhookInput {
    pub url: String,
}

/// Registers the URL as a webhook. A text that is not an `http` or `https` URL gives
/// `InvalidJobInput` and changes nothing.
pub fn handler(firewall: &mut Firewall, input: RegisterWebhookInput) -> (r: Result<(), Error>)
    requires
        old(firewall).wf(),
    ensures
        final(firewall).wf(),
        r is Ok <==> webhook_accepted(input.url@),
        r is Ok ==> old(firewall)@.registers_webhook(final(firewall)@, parsed_url(input.url@)->0),
        r matches Err(e) ==> e is InvalidJobInput && final(firewall)@ == old(firewall)@,
{
    match firewall.add_webhook(input.url.as_str()) {
        Ok(()) => Ok(()),
        Err(_) => Err(Error::InvalidJobInput(String::from_str("Webhook URL must use http or https scheme"))),
    }
}

} // verus!
