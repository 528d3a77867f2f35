use vstd::prelude::*;

verus! {

#[verifier::external_type_specification]
#[verifier::external_body]
pub struct ExIoError(std::io::Error);

/// Registering with the boot sequence is a platform service this build does
/// not have; the request is accepted and ignored.
pub fn set_run_at_startup(_enable: bool, _exe_path: &str) -> (r: Result<(), std::io::Error>)
    ensures
        r is Ok,
{
    Ok(())
}

/// Without a boot registry there is nothing registered.
pub fn get_run_on_startup_state() -> (r: Result<bool, std::io::Error>)
    ensures
        r matches Ok(b) && !b,
{
    Ok(false)
}

/// Toggling the boot registration is a no-op without a boot registry.
pub fn toggle_run_on_boot() {
}

} // verus!
