//! The ledger model: an arena of byte-addressed account slots, each owned by
//! exactly one program, together with the ordered provisioning operations on
//! it. Allocation, extension configuration and finalization each state
//! exactly when they succeed, what the touched slot becomes, and that every
//! other slot is left alone.

use vstd::prelude::*;

use crate::errors::MyError;
use crate::mint::ExtensionConfig;
use crate::validator::fee_config_ok;

verus! {

/// Stage of one slot in the provisioning state machine. A slot that does not
/// exist yet is unallocated; no transition leaves `Initialized`.
#[derive(Clone, Copy, Debug, PartialEq, Eq)]
pub enum MintStage {
    /// The backing account exists, zero-initialized; no extension yet.
    Allocated,
    /// The chosen extension has been written; the mint is not yet usable.
    ExtensionsConfigured,
    /// The mint is finalized; its extension composition is immutable.
    Initialized,
}

/// One account slot: an address, the program owning it, its balance and byte
/// length, and the mint content written by the protocol so far.
#[derive(Clone, Copy, Debug, PartialEq, Eq)]
pub struct Slot {
    /// The slot's ledger address.
    pub address: u64,
    /// The program that owns the slot's bytes.
    pub owner: u64,
    /// Balance held by the slot.
    pub lamports: u64,
    /// Exact byte length the slot was allocated with.
    pub byte_len: usize,
    /// Where the slot stands in the provisioning state machine.
    pub stage: MintStage,
    /// The extension attached to the slot, if any.
    pub extension: Option<ExtensionConfig>,
    /// Decimals recorded at finalization.
    pub decimals: u8,
    /// Mint authority recorded at finalization.
    pub mint_authority: u64,
    /// Freeze authority recorded at finalization, if the caller chose one.
    pub freeze_authority: Option<u64>,
}

impl Slot {
    /// Stage and content agree: an allocated slot is still bare, a configured
    /// slot holds its extension, and a recorded transfer fee is in bounds.
    pub open spec fn wf(self) -> bool {
        &&& (self.stage is Allocated ==> self.extension is None)
        &&& (self.stage is ExtensionsConfigured ==> self.extension is Some)
        &&& (self.extension matches Some(
            ExtensionConfig::TransferFee { transfer_fee_basis_points, .. },
        ) ==> fee_config_ok(transfer_fee_basis_points))
    }
}

/// The slot a fresh allocation produces: zero-initialized mint content in the
/// `Allocated` stage.
pub open spec fn fresh_slot(address: u64, owner: u64, lamports: u64, byte_len: usize) -> Slot {
    Slot {
        address,
        owner,
        lamports,
        byte_len,
        stage: MintStage::Allocated,
        extension: None,
        decimals: 0,
        mint_authority: 0,
        freeze_authority: None,
    }
}

/// The given slot with `amount` taken out of its balance.
pub open spec fn debited(slot: Slot, amount: u64) -> Slot {
    Slot { lamports: (slot.lamports - amount) as u64, ..slot }
}

/// The given slot once its extension has been attached: the extension is
/// recorded and the slot moves to `ExtensionsConfigured`.
pub open spec fn configured(slot: Slot, extension: ExtensionConfig) -> Slot {
    Slot { stage: MintStage::ExtensionsConfigured, extension: Some(extension), ..slot }
}

/// The given slot once the mint is finalized: decimals and authorities are
/// recorded and the slot moves to `Initialized`.
pub open spec fn initialized(
    slot: Slot,
    decimals: u8,
    mint_authority: u64,
    freeze_authority: Option<u64>,
) -> Slot {
    Slot { stage: MintStage::Initialized, decimals, mint_authority, freeze_authority, ..slot }
}

/// The ledger: a set of slots with pairwise distinct addresses, plus the rent
/// rate that fixes the minimum balance a slot of a given size must hold.
pub struct Ledger {
    /// The allocated slots, addresses pairwise distinct.
    pub accounts: Vec<Slot>,
    /// Rent-exempt cost per byte of allocated space.
    pub rent_per_byte: u64,
}

impl Ledger {
    /// The slots as a sequence.
    pub open spec fn s(self) -> Seq<Slot> {
        self.accounts@
    }

    /// Addresses are pairwise distinct and every slot is well-formed.
    pub open spec fn wf(self) -> bool {
        &&& forall|i: int, j: int|
            0 <= i < j < self.s().len() ==> (#[trigger] self.s()[i]).address != (
            #[trigger] self.s()[j]).address
        &&& forall|i: int| 0 <= i < self.s().len() ==> (#[trigger] self.s()[i]).wf()
    }

    /// Whether an account lives at the given address.
    pub open spec fn has_account(self, address: u64) -> bool {
        exists|i: int| 0 <= i < self.s().len() && (#[trigger] self.s()[i]).address == address
    }

    /// Position of the account at the given address, when there is one.
    pub open spec fn index_of(self, address: u64) -> int {
        choose|i: int| 0 <= i < self.s().len() && (#[trigger] self.s()[i]).address == address
    }

    /// The slot at the given address, when there is one.
    pub open spec fn account_at(self, address: u64) -> Slot {
        self.s()[self.index_of(address)]
    }

    /// The slot at the given address, or nothing.
    pub open spec fn lookup(self, address: u64) -> Option<Slot> {
        if self.has_account(address) {
            Some(self.account_at(address))
        } else {
            None
        }
    }

    /// Balance at the given address; an absent account holds nothing.
    pub open spec fn balance_of(self, address: u64) -> u64 {
        if self.has_account(address) {
            self.account_at(address).lamports
        } else {
            0
        }
    }

    /// The rent-exempt minimum balance for a slot of the given byte length.
    pub open spec fn min_balance(self, byte_len: usize) -> int {
        (self.rent_per_byte as int) * (byte_len as int)
    }

    /// In a well-formed ledger, a slot found at position `i` is the one every
    /// address-based reading yields.
    pub proof fn lemma_found_at(self, address: u64, i: int)
        requires
            self.wf(),
            0 <= i < self.s().len(),
            self.s()[i].address == address,
        ensures
            self.has_account(address),
            self.index_of(address) == i,
            self.account_at(address) == self.s()[i],
            self.lookup(address) == Some(self.s()[i]),
    {
        assert(self.has_account(address));
        let k = self.index_of(address);
        if k != i {
            if k < i {
                assert(self.s()[k].address != self.s()[i].address);
            } else {
                assert(self.s()[i].address != self.s()[k].address);
            }
        }
    }

    /// Replacing the slot at position `i` with one at the same address keeps
    /// the ledger well-formed and leaves every other address untouched.
    pub proof fn lemma_set_slot(pre: Ledger, post: Ledger, i: int, slot: Slot)
        requires
            pre.wf(),
            0 <= i < pre.s().len(),
            slot.wf(),
            slot.address == pre.s()[i].address,
            post.s() == pre.s().update(i, slot),
            post.rent_per_byte == pre.rent_per_byte,
        ensures
            post.wf(),
            post.has_account(slot.address),
            post.account_at(slot.address) == slot,
            post.lookup(slot.address) == Some(slot),
            forall|a: u64| a != slot.address ==> post.lookup(a) == pre.lookup(a),
    {
        assert forall|j: int| 0 <= j < post.s().len() implies (#[trigger] post.s()[j]).address
            == pre.s()[j].address && post.s()[j].wf() by {
            if j != i {
                assert(post.s()[j] == pre.s()[j]);
            }
        }
        post.lemma_found_at(slot.address, i);
        assert forall|a: u64| a != slot.address implies post.lookup(a) == pre.lookup(a) by {
            if pre.has_account(a) {
                let j = pre.index_of(a);
                assert(pre.s()[j].address == a);
                assert(j != i);
                post.lemma_found_at(a, j);
                pre.lemma_found_at(a, j);
            } else {
                if post.has_account(a) {
                    let j = post.index_of(a);
                    assert(pre.s()[j].address == a);
                }
            }
        }
    }

    /// Appending a slot at a previously unused address keeps the ledger
    /// well-formed, makes that slot visible at its address, and leaves every
    /// other address untouched.
    pub proof fn lemma_push_slot(pre: Ledger, post: Ledger, slot: Slot)
        requires
            pre.wf(),
            slot.wf(),
            !pre.has_account(slot.address),
            post.s() == pre.s().push(slot),
            post.rent_per_byte == pre.rent_per_byte,
        ensures
            post.wf(),
            post.has_account(slot.address),
            post.account_at(slot.address) == slot,
            post.lookup(slot.address) == Some(slot),
            forall|a: u64| a != slot.address ==> post.lookup(a) == pre.lookup(a),
    {
        let n = pre.s().len() as int;
        assert(post.s()[n] == slot);
        assert forall|j: int| 0 <= j < n implies (#[trigger] post.s()[j]) == pre.s()[j] by {}
        assert forall|j: int| 0 <= j < n implies (#[trigger] pre.s()[j]).address != slot.address by {
            if pre.s()[j].address == slot.address {
                assert(pre.has_account(slot.address));
            }
        }
        post.lemma_found_at(slot.address, n);
        assert forall|a: u64| a != slot.address implies post.lookup(a) == pre.lookup(a) by {
            if pre.has_account(a) {
                let j = pre.index_of(a);
                assert(pre.s()[j].address == a);
                post.lemma_found_at(a, j);
                pre.lemma_found_at(a, j);
            } else {
                if post.has_account(a) {
                    let j = post.index_of(a);
                    assert(0 <= j < n + 1 && post.s()[j].address == a);
                    assert(j != n);
                    assert(pre.s()[j].address == a);
                }
            }
        }
    }

    /// An empty ledger with the given rent rate.
    pub fn new(rent_per_byte: u64) -> (l: Ledger)
        ensures
            l.wf(),
            l.rent_per_byte == rent_per_byte,
            l.s().len() == 0,
            forall|a: u64| l.lookup(a) is None,
    {
        Ledger { accounts: Vec::new(), rent_per_byte }
    }

    /// Position of the account at the given address, if any.
    fn find_index(&self, address: u64) -> (r: Option<usize>)
        ensures
            r matches Some(i) ==> 0 <= i < self.s().len() && self.s()[i as int].address == address,
            r is None ==> !self.has_account(address),
    {
        let n = self.accounts.len();
        let mut i: usize = 0;
        while i < n
            invariant
                n == self.s().len(),
                0 <= i <= n,
                forall|j: int| 0 <= j < i ==> (#[trigger] self.s()[j]).address != address,
            decreases n - i,
        {
            if self.accounts[i].address == address {
                return Some(i);
            }
            i = i + 1;
        }
        None
    }

    /// Whether an account lives at the given address.
    pub fn contains(&self, address: u64) -> (r: bool)
        ensures
            r == self.has_account(address),
    {
        match self.find_index(address) {
            Some(i) => {
                proof {
                    assert(self.has_account(address));
                }
                true
            },
            None => false,
        }
    }

    /// The slot at the given address, or nothing.
    pub fn slot_of(&self, address: u64) -> (r: Option<Slot>)
        requires
            self.wf(),
        ensures
            r == self.lookup(address),
    {
        match self.find_index(address) {
            Some(i) => {
                proof {
                    self.lemma_found_at(address, i as int);
                }
                Some(self.accounts[i])
            },
            None => None,
        }
    }

    /// Balance at the given address; an absent account holds nothing.
    pub fn balance(&self, address: u64) -> (r: u64)
        requires
            self.wf(),
        ensures
            r == self.balance_of(address),
    {
        match self.find_index(address) {
            Some(i) => {
                proof {
                    self.lemma_found_at(address, i as int);
                }
                self.accounts[i].lamports
            },
            None => 0,
        }
    }

    /// Opens a plain wallet account holding the given balance, so that it can
    /// later fund allocations. Fails if the address is already in use.
    pub fn open_wallet(&mut self, address: u64, lamports: u64) -> (r: Result<(), MyError>)
        requires
            old(self).wf(),
        ensures
            final(self).wf(),
            final(self).rent_per_byte == old(self).rent_per_byte,
            r matches Err(e) ==> *final(self) == *old(self) && e == MyError::AccountAlreadyInUse,
            r is Ok <==> !old(self).has_account(address),
            r is Ok ==> final(self).lookup(address) == Some(fresh_slot(address, 0, lamports, 0)),
            r is Ok ==> forall|a: u64| a != address ==> final(self).lookup(a) == old(self).lookup(
                a,
            ),
    {
        match self.find_index(address) {
            Some(_) => {
                proof {
                    assert(self.has_account(address));
                }
                Err(MyError::AccountAlreadyInUse)
            },
            None => {
                let ghost pre = *self;
                let slot = Slot {
                    address,
                    owner: 0,
                    lamports,
                    byte_len: 0,
                    stage: MintStage::Allocated,
                    extension: None,
                    decimals: 0,
                    mint_authority: 0,
                    freeze_authority: None,
                };
                self.accounts.push(slot);
                proof {
                    Ledger::lemma_push_slot(pre, *self, slot);
                }
                Ok(())
            },
        }
    }

    /// Debits the payer by the rent-exempt minimum and creates a
    /// zero-initialized account of exactly `byte_len` bytes at the previously
    /// unused target address, owned by `owner_program`. Fails fatally when
    /// the target is in use or the payer cannot cover the minimum, touching
    /// nothing in either case.
    pub fn allocate(
        &mut self,
        payer: u64,
        target_address: u64,
        owner_program: u64,
        byte_len: usize,
    ) -> (r: Result<(), MyError>)
        requires
            old(self).wf(),
        ensures
            final(self).wf(),
            final(self).rent_per_byte == old(self).rent_per_byte,
            r matches Err(e) ==> *final(self) == *old(self),
            (r matches Err(e) && e == MyError::AccountAlreadyInUse) <==> old(self).has_account(
                target_address,
            ),
            (r matches Err(e) && e == MyError::InsufficientFunds) <==> (!old(self).has_account(
                target_address,
            ) && old(self).balance_of(payer) < old(self).min_balance(byte_len)),
            r is Ok <==> (!old(self).has_account(target_address) && old(self).balance_of(payer)
                >= old(self).min_balance(byte_len)),
            r is Ok ==> final(self).lookup(target_address) == Some(
                fresh_slot(
                    target_address,
                    owner_program,
                    old(self).min_balance(byte_len) as u64,
                    byte_len,
                ),
            ),
            r is Ok && old(self).has_account(payer) ==> final(self).lookup(payer) == Some(
                debited(old(self).account_at(payer), old(self).min_balance(byte_len) as u64),
            ),
            r is Ok && !old(self).has_account(payer) && payer != target_address ==> final(self).lookup(payer) is None,
            r is Ok ==> forall|a: u64|
                a != target_address && a != payer ==> final(self).lookup(a) == old(self).lookup(a),
    {
        match self.find_index(target_address) {
            Some(_) => {
                proof {
                    assert(self.has_account(target_address));
                }
                return Err(MyError::AccountAlreadyInUse);
            },
            None => {},
        }
        proof {
            let a = self.rent_per_byte as int;
            let b = byte_len as int;
            assert(a * b <= 0xffff_ffff_ffff_ffff * 0xffff_ffff_ffff_ffff) by (nonlinear_arith)
                requires
                    0 <= a <= 0xffff_ffff_ffff_ffff,
                    0 <= b <= 0xffff_ffff_ffff_ffff,
            ;
        }
        let min: u128 = (self.rent_per_byte as u128) * (byte_len as u128);
        let payer_idx = self.find_index(payer);
        proof {
            if let Some(i) = payer_idx {
                self.lemma_found_at(payer, i as int);
            }
        }
        let payer_balance: u64 = match payer_idx {
            Some(i) => self.accounts[i].lamports,
            None => 0,
        };
        if (payer_balance as u128) < min {
            return Err(MyError::InsufficientFunds);
        }
        let min64: u64 = min as u64;
        match payer_idx {
            Some(i) => {
                let ghost pre = *self;
                let s = self.accounts[i];
                let upd = Slot { lamports: s.lamports - min64, ..s };
                self.accounts[i] = upd;
                proof {
                    Ledger::lemma_set_slot(pre, *self, i as int, upd);
                }
            },
            None => {},
        }
        let ghost mid = *self;
        let slot = Slot {
            address: target_address,
            owner: owner_program,
            lamports: min64,
            byte_len,
            stage: MintStage::Allocated,
            extension: None,
            decimals: 0,
            mint_authority: 0,
            freeze_authority: None,
        };
        self.accounts.push(slot);
        proof {
            Ledger::lemma_push_slot(mid, *self, slot);
        }
        Ok(())
    }

    /// Writes the transfer-fee extension header onto the slot: the fee-config
    /// and withdraw authorities, the rate and the absolute cap. Fails, and
    /// mutates nothing, unless the slot exists, still stands in `Allocated`,
    /// and the rate is within bounds.
    pub fn configure_transfer_fee(
        &mut self,
        mint_address: u64,
        transfer_fee_config_authority: u64,
        withdraw_withheld_authority: u64,
        transfer_fee_basis_points: u16,
        maximum_fee: u64,
    ) -> (r: Result<(), MyError>)
        requires
            old(self).wf(),
        ensures
            final(self).wf(),
            final(self).rent_per_byte == old(self).rent_per_byte,
            r matches Err(e) ==> *final(self) == *old(self) && e == MyError::TransferFeeInitFailed,
            r is Ok <==> (old(self).has_account(mint_address) && old(self).account_at(
                mint_address,
            ).stage is Allocated && fee_config_ok(transfer_fee_basis_points)),
            r is Ok ==> final(self).lookup(mint_address) == Some(
                configured(
                    old(self).account_at(mint_address),
                    (ExtensionConfig::TransferFee {
                        transfer_fee_config_authority,
                        withdraw_withheld_authority,
                        transfer_fee_basis_points,
                        maximum_fee,
                    }),
                ),
            ),
            r is Ok ==> forall|a: u64|
                a != mint_address ==> final(self).lookup(a) == old(self).lookup(a),
            old(self).lookup(mint_address) matches Some(s) && s.stage is Initialized ==> (
            r matches Err(e) && *final(self) == *old(self)),
    {
        if transfer_fee_basis_points > crate::validator::MAX_FEE_BASIS_POINTS {
            return Err(MyError::TransferFeeInitFailed);
        }
        match self.find_index(mint_address) {
            None => Err(MyError::TransferFeeInitFailed),
            Some(i) => {
                proof {
                    self.lemma_found_at(mint_address, i as int);
                }
                let s = self.accounts[i];
                match s.stage {
                    MintStage::Allocated => {
                        let ghost pre = *self;
                        let upd = Slot {
                            stage: MintStage::ExtensionsConfigured,
                            extension: Some(
                                ExtensionConfig::TransferFee {
                                    transfer_fee_config_authority,
                                    withdraw_withheld_authority,
                                    transfer_fee_basis_points,
                                    maximum_fee,
                                },
                            ),
                            ..s
                        };
                        self.accounts[i] = upd;
                        proof {
                            Ledger::lemma_set_slot(pre, *self, i as int, upd);
                        }
                        Ok(())
                    },
                    _ => Err(MyError::TransferFeeInitFailed),
                }
            },
        }
    }

    /// Writes the non-transferable marker onto the slot, forbidding all
    /// future transfers of tokens of this mint while leaving mint and burn
    /// unaffected. Fails, and mutates nothing, unless the slot exists and
    /// still stands in `Allocated`.
    pub fn configure_non_transferable(&mut self, mint_address: u64) -> (r: Result<(), MyError>)
        requires
            old(self).wf(),
        ensures
            final(self).wf(),
            final(self).rent_per_byte == old(self).rent_per_byte,
            r matches Err(e) ==> *final(self) == *old(self) && e
                == MyError::NonTransferableInitFailed,
            r is Ok <==> (old(self).has_account(mint_address) && old(self).account_at(
                mint_address,
            ).stage is Allocated),
            r is Ok ==> final(self).lookup(mint_address) == Some(
                configured(old(self).account_at(mint_address), ExtensionConfig::NonTransferable),
            ),
            r is Ok ==> forall|a: u64|
                a != mint_address ==> final(self).lookup(a) == old(self).lookup(a),
            old(self).lookup(mint_address) matches Some(s) && s.stage is Initialized ==> (
            r matches Err(e) && *final(self) == *old(self)),
    {
        match self.find_index(mint_address) {
            None => Err(MyError::NonTransferableInitFailed),
            Some(i) => {
                proof {
                    self.lemma_found_at(mint_address, i as int);
                }
                let s = self.accounts[i];
                match s.stage {
                    MintStage::Allocated => {
                        let ghost pre = *self;
                        let upd = Slot {
                            stage: MintStage::ExtensionsConfigured,
                            extension: Some(ExtensionConfig::NonTransferable),
                            ..s
                        };
                        self.accounts[i] = upd;
                        proof {
                            Ledger::lemma_set_slot(pre, *self, i as int, upd);
                        }
                        Ok(())
                    },
                    _ => Err(MyError::NonTransferableInitFailed),
                }
            },
        }
    }

    /// Finalizes the mint: records decimals, the mint authority and the
    /// explicit freeze-authority choice, and moves the slot to `Initialized`.
    /// Allowed from `Allocated` (no extension requested) or
    /// `ExtensionsConfigured`; no transition leaves `Initialized`, and an
    /// absent account cannot be finalized.
    pub fn finalize_mint(
        &mut self,
        mint_address: u64,
        decimals: u8,
        mint_authority: u64,
        freeze_authority: Option<u64>,
    ) -> (r: Result<(), MyError>)
        requires
            old(self).wf(),
        ensures
            final(self).wf(),
            final(self).rent_per_byte == old(self).rent_per_byte,
            r matches Err(e) ==> *final(self) == *old(self) && e == MyError::MintFailed,
            r is Ok <==> (old(self).has_account(mint_address) && !(old(self).account_at(
                mint_address,
            ).stage is Initialized)),
            r is Ok ==> final(self).lookup(mint_address) == Some(
                initialized(
                    old(self).account_at(mint_address),
                    decimals,
                    mint_authority,
                    freeze_authority,
                ),
            ),
            r is Ok ==> forall|a: u64|
                a != mint_address ==> final(self).lookup(a) == old(self).lookup(a),
    {
        match self.find_index(mint_address) {
            None => Err(MyError::MintFailed),
            Some(i) => {
                proof {
                    self.lemma_found_at(mint_address, i as int);
                }
                let s = self.accounts[i];
                match s.stage {
                    MintStage::Initialized => Err(MyError::MintFailed),
                    _ => {
                        let ghost pre = *self;
                        let upd = Slot {
                            stage: MintStage::Initialized,
                            decimals,
                            mint_authority,
                            freeze_authority,
                            ..s
                        };
                        self.accounts[i] = upd;
                        proof {
                            Ledger::lemma_set_slot(pre, *self, i as int, upd);
                        }
                        Ok(())
                    },
                }
            },
        }
    }
}

} // verus!
