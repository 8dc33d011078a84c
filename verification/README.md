# ialloc

Allocator interface building blocks, verified with Verus.

The library (`src/`) holds the parts of an allocator family that decide things, each with a
contract proved by Verus:

* `align` — `Alignment`, a power of two checked at construction; the `AlignN` wrapper, which
  carries an alignment as a number alongside its value (it does not raise the value's alignment
  in memory), and the per-size alignment markers; named alignments.
* `layout` — `Layout`, size and alignment meeting Rust's layout conditions; padding and raising
  the alignment.
* `meta` — the `Meta` trait: the smallest and largest alignment and the largest size an
  allocator serves, and whether it serves zero-sized requests.
* `allocator::simple` — `Bump` (carves allocations from the front of a region) and
  `FixedPoolLinearProbe` (hands out fixed-size slots by linear probing, with the offset of each
  slot in the pool's region); both are complete models over addresses and slot indices.
* `allocator::adapt` — `AllocZst`, `DangleZst`, `PanicOverAlign`: how requests are rewritten
  before they reach an underlying allocator.
* `allocator::global`, `allocator::c`, `allocator::cpp`, `allocator::win32`,
  `allocator::debug` — the limits of each system allocator and the decisions around its calls.
* `fat_from_thin`, `auto` — serving layout requests with size-only allocators, and zero-sized
  requests with allocators that refuse them.

Allocators that touch memory return steps (allocate, copy, free) or addresses; `app/` carries
them out against the Rust global allocator, the C allocator, a caller's buffer, a heap buffer
for the pool and, on Windows, the process heap and the COM task allocator.
