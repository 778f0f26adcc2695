//! The pre-exec hook: what happens in the helper between its creation and the
//! replacement of its program image.
//!
//! The hook runs in the helper, not in the process that registered it. All it
//! is given is the request's opaque context word, which is the image handle;
//! all it decides is that this image goes to descriptor `EXEC_FD` of the
//! helper, and that it succeeded.

use vstd::prelude::*;
use crate::finalize::EXEC_FD;
use crate::handle::ImageHandle;

verus! {

/// The status with which the hook lets the launch go on.
pub const HOOK_SUCCESS: i32 = 0;

/// One entry to add to a descriptor table.
#[derive(Clone, Copy, Debug, PartialEq, Eq, Structural)]
pub struct Installation {
    pub descriptor: u32,
    pub image: ImageHandle,
}

impl Installation {
    /// The descriptor table `table` once this installation was made in it.
    pub open spec fn installed_in(self, table: Map<u32, ImageHandle>) -> Map<u32, ImageHandle> {
        table.insert(self.descriptor, self.image)
    }
}

/// What the hook does and returns.
pub open spec fn hook_spec(context: usize) -> (Installation, i32) {
    (Installation { descriptor: EXEC_FD, image: ImageHandle { raw: context } }, HOOK_SUCCESS)
}

/// The hook. `context` is the word that the request carried. Answers with the
/// installation to make in the helper's descriptor table and with the status
/// to return to the launcher, which is always success.
pub fn kmod_devexec_init(context: usize) -> (r: (Installation, i32))
    ensures
        r == hook_spec(context),
{
    (Installation { descriptor: EXEC_FD, image: ImageHandle { raw: context } }, HOOK_SUCCESS)
}

/// In the helper, after the hook, descriptor `EXEC_FD` is the image whose
/// handle the request carried, and every other descriptor is what it was.
pub proof fn law_hook_installs_image(table: Map<u32, ImageHandle>, image: ImageHandle)
    ensures
        ({
            let status = hook_spec(image.raw).1;
            let after = hook_spec(image.raw).0.installed_in(table);
            &&& status == HOOK_SUCCESS
            &&& after.dom().contains(EXEC_FD)
            &&& after[EXEC_FD] == image
            &&& forall|fd: u32|
                fd != EXEC_FD ==> (after.dom().contains(fd) <==> table.dom().contains(fd))
            &&& forall|fd: u32| fd != EXEC_FD && table.dom().contains(fd) ==> after[fd] == table[fd]
        }),
{
}

} // verus!
