//! Creating the registry record.
use crate::address::{find_registry_address, found, registry_address, Address};
use crate::context::{bump_of, leads_to, Context, ContextView, Slot, SlotView, Step};
use crate::errors::Failure;
use crate::state::RegistryConfig;
use vstd::prelude::*;

verus! {

/// What a request to create the registry names.
#[derive(Clone, Debug, PartialEq, Eq)]
pub struct Initialize {
    /// The caller, who becomes the registry's authority.
    pub authority: Address,
    /// Where the registry record is to be created.
    pub registry: Slot<RegistryConfig>,
}

/// [`Initialize`] as a mathematical value.
pub struct InitializeView {
    pub authority: Address,
    pub registry: SlotView<RegistryConfig>,
}

impl View for Initialize {
    type V = InitializeView;

    open spec fn view(&self) -> InitializeView {
        InitializeView { authority: self.authority, registry: self.registry@ }
    }
}

/// Why the registry cannot be created, if anything stands against it,
/// where `registry_at` is the registry's derived address. The location
/// named must be that address, and must be vacant.
pub open spec fn initialize_refusal(
    ctx: ContextView<InitializeView>,
    registry_at: Option<(Seq<u8>, u8)>,
) -> Option<Failure> {
    if !leads_to(registry_at, ctx.accounts.registry.address) {
        Some(Failure::AddressMismatch)
    } else if ctx.accounts.registry.record is Some {
        Some(Failure::AlreadyExists)
    } else {
        None
    }
}

/// The registry record that a successful creation writes: no agents yet,
/// not paused, the caller as authority.
pub open spec fn initial_registry(
    ctx: ContextView<InitializeView>,
    registry_at: Option<(Seq<u8>, u8)>,
) -> RegistryConfig {
    RegistryConfig {
        authority: ctx.accounts.authority,
        agent_count: 0,
        paused: false,
        bump: bump_of(registry_at),
    }
}

/// The surroundings after the registry has been created.
pub open spec fn initialized(
    ctx: ContextView<InitializeView>,
    registry_at: Option<(Seq<u8>, u8)>,
) -> ContextView<InitializeView> {
    ContextView {
        accounts: InitializeView {
            registry: SlotView {
                record: Some(initial_registry(ctx, registry_at)),
                ..ctx.accounts.registry
            },
            ..ctx.accounts
        },
        ..ctx
    }
}

/// The whole operation, given the registry's derived address: refused
/// with nothing changed, or carried out.
pub open spec fn initialize_step_at(
    ctx: ContextView<InitializeView>,
    registry_at: Option<(Seq<u8>, u8)>,
) -> Step<ContextView<InitializeView>> {
    match initialize_refusal(ctx, registry_at) {
        Some(e) => Step { result: Err(e), after: ctx },
        None => Step { result: Ok(()), after: initialized(ctx, registry_at) },
    }
}

/// The whole operation, with the registry's address derived for the
/// program at hand.
pub open spec fn initialize_step(ctx: ContextView<InitializeView>) -> Step<
    ContextView<InitializeView>,
> {
    initialize_step_at(ctx, registry_address(ctx.program_id@))
}

/// Creates the registry record, given the registry's derived address and
/// bump. The first caller wins: once the record exists, every further call
/// fails and changes nothing.
pub fn apply(ctx: &mut Context<Initialize>, registry_at: Option<(Address, u8)>) -> (r: Result<
    (),
    Failure,
>)
    ensures
        (Step { result: r, after: final(ctx)@ }) == initialize_step_at(
            old(ctx)@,
            found(registry_at),
        ),
        r is Err ==> *final(ctx) == *old(ctx),
{
    let bump = match registry_at {
        Some((address, bump)) => {
            if !address.same_as(&ctx.accounts.registry.address) {
                return Err(Failure::AddressMismatch);
            }
            bump
        },
        None => {
            return Err(Failure::AddressMismatch);
        },
    };
    if ctx.accounts.registry.record.is_some() {
        return Err(Failure::AlreadyExists);
    }
    ctx.accounts.registry.record = Some(
        RegistryConfig { authority: ctx.accounts.authority, agent_count: 0, paused: false, bump },
    );
    Ok(())
}

/// Creates the registry record at the address derived for the program.
pub fn handler(ctx: &mut Context<Initialize>) -> (r: Result<(), Failure>)
    ensures
        (Step { result: r, after: final(ctx)@ }) == initialize_step(old(ctx)@),
        r is Err ==> *final(ctx) == *old(ctx),
{
    let registry_at = find_registry_address(&ctx.program_id);
    apply(ctx, registry_at)
}

} // verus!
