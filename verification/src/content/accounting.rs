//! Work and retention accounting of one interpretation.

use vstd::prelude::*;

use crate::content::model::ContentOperatorSource;
use crate::content::vm_error::{
    vm_resource, ContentVmError, ContentVmLimit, ContentVmLimitContext, ContentVmLimitKind,
};
use crate::content::vm_limits::{vm_preflight, ContentVmLimitConfig, ContentVmLimits};
use crate::memory::{capacity_of, try_reserve_exact};

verus! {

/// Interpreter work and retention statistics.
#[derive(Clone, Copy, Debug, PartialEq, Eq, Structural)]
pub struct ContentVmStats {
    pub operators: u64,
    pub fuel: u64,
    pub max_graphics_depth: u32,
    pub max_compatibility_depth: u32,
    pub max_marked_depth: u32,
    pub property_uses: u64,
    pub image_uses: u64,
    pub retained_bytes: u64,
    pub peak_retained_bytes: u64,
}

/// What an interpretation has charged so far.
#[derive(Clone, Copy, Debug, PartialEq, Eq, Structural)]
pub struct Accounting {
    pub operators: u64,
    pub fuel: u64,
    pub max_graphics_depth: u32,
    pub max_compatibility_depth: u32,
    pub max_marked_depth: u32,
    pub property_uses: u64,
    pub image_uses: u64,
    pub peak_retained: u64,
}

/// Nothing charged.
pub open spec fn no_charges() -> Accounting {
    Accounting {
        operators: 0,
        fuel: 0,
        max_graphics_depth: 0,
        max_compatibility_depth: 0,
        max_marked_depth: 0,
        property_uses: 0,
        image_uses: 0,
        peak_retained: 0,
    }
}

/// The larger of two totals.
pub open spec fn larger(left: u64, right: u64) -> u64 {
    if left < right {
        right
    } else {
        left
    }
}

impl Default for Accounting {
    fn default() -> (accounting: Self)
        ensures
            accounting == no_charges(),
    {
        Self {
            operators: 0,
            fuel: 0,
            max_graphics_depth: 0,
            max_compatibility_depth: 0,
            max_marked_depth: 0,
            property_uses: 0,
            image_uses: 0,
            peak_retained: 0,
        }
    }
}

impl Accounting {
    /// Raises the retained peak.
    pub fn observe_retained(&mut self, retained: u64)
        ensures
            *final(self) == (Accounting {
                peak_retained: larger(old(self).peak_retained, retained),
                ..*old(self)
            }),
    {
        if self.peak_retained < retained {
            self.peak_retained = retained;
        }
    }

    /// Charges work against the fuel budget.
    pub fn charge_fuel(
        &mut self,
        limits: ContentVmLimits,
        amount: u64,
        source: ContentOperatorSource,
    ) -> (result: Result<(), ContentVmError>)
        ensures
            result == vm_preflight(
                limits@,
                ContentVmLimitKind::Fuel,
                old(self).fuel,
                amount,
                Some(source),
            ),
            *final(self) == (if result is Ok {
                Accounting { fuel: (old(self).fuel + amount) as u64, ..*old(self) }
            } else {
                *old(self)
            }),
    {
        match limits.preflight(ContentVmLimitKind::Fuel, self.fuel, amount, Some(source)) {
            Ok(_) => {
                self.fuel = self.fuel + amount;
                Ok(())
            },
            Err(error) => Err(error),
        }
    }

    /// Summarizes the work, with what is retained now.
    pub fn snapshot(&self, retained: u64) -> (stats: ContentVmStats)
        ensures
            stats == (ContentVmStats {
                operators: self.operators,
                fuel: self.fuel,
                max_graphics_depth: self.max_graphics_depth,
                max_compatibility_depth: self.max_compatibility_depth,
                max_marked_depth: self.max_marked_depth,
                property_uses: self.property_uses,
                image_uses: self.image_uses,
                retained_bytes: retained,
                peak_retained_bytes: self.peak_retained,
            }),
    {
        ContentVmStats {
            operators: self.operators,
            fuel: self.fuel,
            max_graphics_depth: self.max_graphics_depth,
            max_compatibility_depth: self.max_compatibility_depth,
            max_marked_depth: self.max_marked_depth,
            property_uses: self.property_uses,
            image_uses: self.image_uses,
            retained_bytes: retained,
            peak_retained_bytes: self.peak_retained,
        }
    }
}

/// Admission of one operator: the operator budget first, then its fuel.
pub open spec fn operator_admission(
    limits: ContentVmLimitConfig,
    accounting: Accounting,
    fuel: u64,
    source: ContentOperatorSource,
) -> Result<Accounting, ContentVmError> {
    match vm_preflight(limits, ContentVmLimitKind::Operators, accounting.operators, 1, Some(source)) {
        Err(error) => Err(error),
        Ok(_) => match vm_preflight(
            limits,
            ContentVmLimitKind::Fuel,
            accounting.fuel,
            fuel,
            Some(source),
        ) {
            Err(error) => Err(error),
            Ok(_) => Ok(
                Accounting {
                    operators: (accounting.operators + 1) as u64,
                    fuel: (accounting.fuel + fuel) as u64,
                    ..accounting
                },
            ),
        },
    }
}

/// Admits one operator with its fuel.
pub fn admit_operator(
    accounting: &mut Accounting,
    limits: ContentVmLimits,
    fuel: u64,
    source: ContentOperatorSource,
) -> (result: Result<(), ContentVmError>)
    ensures
        match operator_admission(limits@, *old(accounting), fuel, source) {
            Ok(next) => result is Ok && *final(accounting) == next,
            Err(error) => result == Err::<(), ContentVmError>(error) && *final(accounting)
                == *old(accounting),
        },
{
    match limits.preflight(
        ContentVmLimitKind::Operators,
        accounting.operators,
        1,
        Some(source),
    ) {
        Ok(_) => {},
        Err(error) => {
            return Err(error);
        },
    }
    match limits.preflight(ContentVmLimitKind::Fuel, accounting.fuel, fuel, Some(source)) {
        Ok(_) => {},
        Err(error) => {
            return Err(error);
        },
    }
    accounting.operators = accounting.operators + 1;
    accounting.fuel = accounting.fuel + fuel;
    Ok(())
}

/// The capacity to grow to: at least twice the current one, and at least what is required.
pub open spec fn grown_capacity(current: usize, required: usize) -> int {
    if required <= current {
        current as int
    } else {
        let doubled = if current == 0 {
            4
        } else if current * 2 <= usize::MAX {
            current * 2
        } else {
            required as int
        };
        if doubled < required {
            required as int
        } else {
            doubled
        }
    }
}

/// Returns the capacity to grow to.
pub fn geometric_capacity(current_capacity: usize, required_capacity: usize) -> (capacity: usize)
    ensures
        capacity == grown_capacity(current_capacity, required_capacity),
        capacity >= required_capacity,
        capacity >= current_capacity,
{
    if required_capacity <= current_capacity {
        return current_capacity;
    }
    let grown: usize = if current_capacity == 0 {
        4
    } else {
        match current_capacity.checked_mul(2) {
            Some(doubled) => doubled,
            None => required_capacity,
        }
    };
    if grown < required_capacity {
        required_capacity
    } else {
        grown
    }
}

/// Growth is geometric: a vector that must grow at least doubles, so that moving its elements costs
/// no more than the growth itself gains.
pub proof fn growth_is_geometric(current: usize, required: usize)
    requires
        current < required,
        current * 2 <= usize::MAX,
    ensures
        grown_capacity(current, required) >= current * 2,
        grown_capacity(current, required) >= required,
        current == 0 ==> grown_capacity(current, required) >= 4,
{
}

/// Bytes that `count` elements of a type take; what does not fit counts as all there is.
pub fn byte_width<T>(count: usize) -> (width: u64)
    ensures
        width == retained_sum(count * vstd::layout::size_of::<T>()),
{
    match (count as u64).checked_mul(core::mem::size_of::<T>() as u64) {
        Some(bytes) => bytes,
        None => u64::MAX,
    }
}

/// Bytes of capacity that a vector holds.
pub fn capacity_bytes<T>(values: &Vec<T>) -> (width: u64)
    ensures
        values@.len() * vstd::layout::size_of::<T>() <= width <= isize::MAX,
{
    let capacity: usize = capacity_of(values);
    assert(capacity * vstd::layout::size_of::<T>() >= values@.len() * vstd::layout::size_of::<T>())
        by (nonlinear_arith)
        requires
            capacity >= values@.len(),
    ;
    byte_width::<T>(capacity)
}

/// One planned growth: the capacity to reach, and the bytes to hold against the budget.
#[derive(Clone, Copy, Debug, PartialEq, Eq, Structural)]
pub struct Growth {
    pub target_capacity: usize,
    pub consumed: u64,
    pub attempted: u64,
}

/// Sum of retained parts; one that does not fit counts as all there is.
pub open spec fn retained_sum(parts: int) -> u64 {
    if parts <= u64::MAX {
        parts as u64
    } else {
        u64::MAX
    }
}

/// The growth that `additional` more elements need, given what the allocator last granted.
pub open spec fn growth_for(
    len: usize,
    capacity: usize,
    additional: usize,
    width: nat,
    program_bytes: u64,
    other_bytes: u64,
    limits: ContentVmLimitConfig,
    source: ContentOperatorSource,
) -> Result<Option<Growth>, ContentVmError> {
    let required = if len + additional <= usize::MAX {
        (len + additional) as usize
    } else {
        usize::MAX
    };
    if len + additional <= capacity {
        Ok(None)
    } else {
        let target = grown_capacity(capacity, required);
        let held = retained_sum((capacity * width) as int);
        let consumed = retained_sum(program_bytes + other_bytes + held);
        let attempted = (retained_sum((target * width) as int) - held) as u64;
        match vm_preflight(
            limits,
            ContentVmLimitKind::RetainedBytes,
            consumed,
            attempted,
            Some(source),
        ) {
            Err(error) => Err(error),
            Ok(_) => Ok(Some(Growth { target_capacity: target as usize, consumed, attempted })),
        }
    }
}

/// Plans the growth for `additional` more elements.
pub fn plan_growth<T>(
    len: usize,
    capacity: usize,
    additional: usize,
    program_bytes: u64,
    other_bytes: u64,
    limits: ContentVmLimits,
    source: ContentOperatorSource,
) -> (growth: Result<Option<Growth>, ContentVmError>)
    requires
        len <= capacity,
    ensures
        growth == growth_for(
            len,
            capacity,
            additional,
            vstd::layout::size_of::<T>(),
            program_bytes,
            other_bytes,
            limits@,
            source,
        ),
        growth matches Ok(Some(plan)) ==> plan.target_capacity >= capacity,
{
    let required: usize = len.saturating_add(additional);
    if additional <= capacity - len {
        return Ok(None);
    }
    let target: usize = geometric_capacity(capacity, required);
    let current_bytes: u64 = byte_width::<T>(capacity);
    let target_bytes: u64 = byte_width::<T>(target);
    let consumed: u64 = program_bytes.saturating_add(other_bytes).saturating_add(current_bytes);
    proof {
        let width = vstd::layout::size_of::<T>();
        assert(target * width >= capacity * width) by (nonlinear_arith)
            requires
                target >= capacity,
        ;
    }
    let attempted: u64 = target_bytes - current_bytes;
    match limits.preflight(
        ContentVmLimitKind::RetainedBytes,
        consumed,
        attempted,
        Some(source),
    ) {
        Ok(_) => Ok(Some(Growth { target_capacity: target, consumed, attempted })),
        Err(error) => Err(error),
    }
}

/// Whether a failure to grow was decided by memory, or by fuel that does not suffice to move `len`
/// live elements.
pub open spec fn growth_failed(
    error: ContentVmError,
    limits: ContentVmLimitConfig,
    fuel: u64,
    len: int,
) -> bool {
    error.is_memory_failure() || error.is_fuel_failure(limits.max_fuel, fuel, len)
}

/// Whether `after` differs from `before` by the cost of moving `len` elements, at most, and by a
/// raised peak.
pub open spec fn grew(before: Accounting, after: Accounting, len: int) -> bool {
    &&& after.peak_retained >= before.peak_retained
    &&& after.fuel == before.fuel || after.fuel == before.fuel + len
    &&& after == (Accounting {
        fuel: after.fuel,
        peak_retained: after.peak_retained,
        ..before
    })
}

/// Makes room for `additional` more elements, geometrically, within the retained budget. Moving
/// the live elements costs one unit of fuel each.
pub fn reserve_vm_additional<T>(
    values: &mut Vec<T>,
    additional: usize,
    program_bytes: u64,
    other_capacity_bytes: u64,
    limits: ContentVmLimits,
    source: ContentOperatorSource,
    accounting: &mut Accounting,
) -> (total: Result<u64, ContentVmError>)
    ensures
        final(values)@ == old(values)@,
        grew(*old(accounting), *final(accounting), old(values)@.len() as int),
        match total {
            Ok(bytes) => {
                &&& bytes <= limits@.max_retained_bytes
                &&& bytes >= program_bytes + other_capacity_bytes + old(values)@.len()
                    * vstd::layout::size_of::<T>()
                &&& final(accounting).peak_retained == larger(old(accounting).peak_retained, bytes)
            },
            Err(error) => growth_failed(
                error,
                limits@,
                old(accounting).fuel,
                old(values)@.len() as int,
            ),
        },
{
    let len: usize = values.len();
    let capacity: usize = capacity_of(values);
    match plan_growth::<T>(
        len,
        capacity,
        additional,
        program_bytes,
        other_capacity_bytes,
        limits,
        source,
    ) {
        Ok(None) => {},
        Ok(Some(growth)) => {
            match accounting.charge_fuel(limits, len as u64, source) {
                Ok(_) => {},
                Err(error) => {
                    return Err(error);
                },
            }
            if !try_reserve_exact(values, growth.target_capacity - len) {
                return Err(
                    ContentVmError::resource(
                        ContentVmLimit::new(
                            ContentVmLimitKind::Allocation,
                            limits.max_retained_bytes(),
                            growth.consumed,
                            growth.attempted,
                        ),
                        Some(source),
                    ),
                );
            }
        },
        Err(error) => {
            return Err(error);
        },
    }
    let held: u64 = capacity_bytes(values);
    let total: u64 = program_bytes.saturating_add(other_capacity_bytes).saturating_add(held);
    match limits.preflight(ContentVmLimitKind::RetainedBytes, 0, total, Some(source)) {
        Ok(_) => {},
        Err(error) => {
            return Err(error);
        },
    }
    accounting.observe_retained(total);
    Ok(total)
}

/// Makes room for one more element.
pub fn reserve_vm_slot<T>(
    values: &mut Vec<T>,
    program_bytes: u64,
    other_capacity_bytes: u64,
    limits: ContentVmLimits,
    source: ContentOperatorSource,
    accounting: &mut Accounting,
) -> (total: Result<u64, ContentVmError>)
    ensures
        final(values)@ == old(values)@,
        grew(*old(accounting), *final(accounting), old(values)@.len() as int),
        match total {
            Ok(bytes) => {
                &&& bytes <= limits@.max_retained_bytes
                &&& bytes >= program_bytes + other_capacity_bytes + old(values)@.len()
                    * vstd::layout::size_of::<T>()
                &&& final(accounting).peak_retained == larger(old(accounting).peak_retained, bytes)
            },
            Err(error) => growth_failed(
                error,
                limits@,
                old(accounting).fuel,
                old(values)@.len() as int,
            ),
        },
{
    reserve_vm_additional(
        values,
        1,
        program_bytes,
        other_capacity_bytes,
        limits,
        source,
        accounting,
    )
}

/// Why `nominal` more bytes cannot be held beside `consumed` ones: the budget refuses them, the
/// allocator does, or the budget refuses what the allocator granted.
pub open spec fn hold_refused(
    error: ContentVmError,
    limits: ContentVmLimitConfig,
    consumed: u64,
    nominal: u64,
    source: Option<ContentOperatorSource>,
) -> bool {
    match vm_preflight(limits, ContentVmLimitKind::RetainedBytes, consumed, nominal, source) {
        Err(refusal) => error == refusal,
        Ok(_) => {
            ||| error == vm_resource(
                ContentVmLimitContext::Vm(
                    ContentVmLimit {
                        kind: ContentVmLimitKind::Allocation,
                        limit: limits.max_retained_bytes,
                        consumed,
                        attempted: nominal,
                    },
                ),
                source,
            )
            ||| exists|granted: u64|
                Err::<(), ContentVmError>(error) == #[trigger] vm_preflight(
                    limits,
                    ContentVmLimitKind::RetainedBytes,
                    consumed,
                    granted,
                    source,
                )
        },
    }
}

/// Makes exactly `slots` slots, holding the nominal and then the granted capacity against the
/// retained budget. Returns the granted bytes.
pub fn reserve_exact_slots<T>(
    values: &mut Vec<T>,
    slots: usize,
    consumed: u64,
    limits: ContentVmLimits,
    source: Option<ContentOperatorSource>,
    peak_retained: &mut u64,
) -> (granted: Result<u64, ContentVmError>)
    ensures
        final(values)@ == old(values)@,
        *final(peak_retained) >= *old(peak_retained),
        match granted {
            Ok(bytes) => {
                &&& consumed + bytes <= limits@.max_retained_bytes
                &&& consumed + slots * vstd::layout::size_of::<T>() <= limits@.max_retained_bytes
                &&& *final(peak_retained) == larger(
                    *old(peak_retained),
                    (consumed + bytes) as u64,
                )
            },
            Err(error) => error.is_memory_failure() && hold_refused(
                error,
                limits@,
                consumed,
                retained_sum((slots * vstd::layout::size_of::<T>()) as int),
                source,
            ),
        },
{
    let attempted: u64 = byte_width::<T>(slots);
    match limits.preflight(ContentVmLimitKind::RetainedBytes, consumed, attempted, source) {
        Ok(_) => {},
        Err(error) => {
            return Err(error);
        },
    }
    if !try_reserve_exact(values, slots) {
        return Err(
            ContentVmError::resource(
                ContentVmLimit::new(
                    ContentVmLimitKind::Allocation,
                    limits.max_retained_bytes(),
                    consumed,
                    attempted,
                ),
                source,
            ),
        );
    }
    let actual: u64 = capacity_bytes(values);
    let reached: u64 = consumed.saturating_add(actual);
    if *peak_retained < reached {
        *peak_retained = reached;
    }
    match limits.preflight(ContentVmLimitKind::RetainedBytes, consumed, actual, source) {
        Ok(_) => Ok(actual),
        Err(error) => Err(error),
    }
}

/// Copies bytes into the plan, holding the nominal and then the granted capacity against the
/// retained budget. Returns the copy with its granted bytes.
pub fn copy_plan_bytes(
    source_bytes: &[u8],
    program_bytes: u64,
    other_capacity_bytes: u64,
    limits: ContentVmLimits,
    source: ContentOperatorSource,
) -> (copied: Result<(Vec<u8>, u64), ContentVmError>)
    ensures
        match copied {
            Ok((copy, retained)) => {
                &&& copy@ == source_bytes@
                &&& retained >= source_bytes@.len()
                &&& program_bytes + other_capacity_bytes + retained <= limits@.max_retained_bytes
            },
            Err(error) => error.is_memory_failure() && hold_refused(
                error,
                limits@,
                retained_sum(program_bytes + other_capacity_bytes),
                source_bytes@.len() as u64,
                Some(source),
            ),
        },
{
    let attempted: u64 = source_bytes.len() as u64;
    let consumed: u64 = program_bytes.saturating_add(other_capacity_bytes);
    match limits.preflight(ContentVmLimitKind::RetainedBytes, consumed, attempted, Some(source)) {
        Ok(_) => {},
        Err(error) => {
            return Err(error);
        },
    }
    let mut copy: Vec<u8> = Vec::new();
    if !try_reserve_exact(&mut copy, source_bytes.len()) {
        return Err(
            ContentVmError::resource(
                ContentVmLimit::new(
                    ContentVmLimitKind::Allocation,
                    limits.max_retained_bytes(),
                    consumed,
                    attempted,
                ),
                Some(source),
            ),
        );
    }
    let mut i: usize = 0;
    while i < source_bytes.len()
        invariant
            i <= source_bytes@.len(),
            copy@ =~= source_bytes@.take(i as int),
        decreases source_bytes@.len() - i,
    {
        copy.push(source_bytes[i]);
        i = i + 1;
    }
    assert(copy@ =~= source_bytes@);
    let retained: u64 = capacity_of(&copy) as u64;
    match limits.preflight(ContentVmLimitKind::RetainedBytes, consumed, retained, Some(source)) {
        Ok(_) => {},
        Err(error) => {
            return Err(error);
        },
    }
    Ok((copy, retained))
}

} // verus!
