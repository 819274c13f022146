# rs_ipc

Messages in shared memory for processes on one machine: a writer publishes a
payload, any number of readers take it without going through the kernel, and
both sides sleep on futexes when there is nothing to do.

The library under `src/` is verified with Verus. `app/` maps the memory, drives
the library's operations on it, and offers them to Python.

## How it is built

What a reader, a writer or a locker does is written as an *operation*: a state
machine that says which access to the shared memory comes next (`action`) and
takes its result (`resume`). An operation can be run

- on memory that one owner holds (`SharedMessage`, `ZeroCopySharedMessage`),
  where every call has an exact contract over the value of the memory (`Region`);
- on memory that other processes use at the same time (`LiveMessage`), one
  atomic access at a time.

The `laws` modules state what holds for every interleaving of the accesses of
any number of users: readers and writers exclude each other, a reader finds what
was published, a message that is held does not change, while one writer may
write nobody else publishes, sequences count publications, and a stop is final.

In `shared_message` and `counted_message`, which have one payload, what a writer
wrote and gave up stays covered by the mark of its write, until the next message
is published: nobody reads it. The exception comes after a stop. A writer that
waits for readers then takes its own mark back, and with it uncovers what another
writer may have given up before. The `read_laws` modules state that a reader
finds what was published in every run without such a step, and in every run as
long as the message is not stopped.

That no sleeper is forgotten is stated, and holds, with limits:

- Of the lock (`primitives`), for everybody who waits for it.
- Of `shared_message`, for a reader that waits for data, a writer that waits for
  active readers, and a writer that waits for consumers from its second turn on.
  Left out are a writer's first turn, which looks at the readers before it takes
  its ticket; a lower number of readers to wait for, which notifies nobody; a
  reader that waits for a writer whose start gave up on a stop; and a sleeper that
  missed as many notifications as the counter can hold.
- Not of `counted_message` and `zero_copy`: there a sleeper takes its ticket after
  it has looked, and a notification in between is lost.

## Modules

| module | what it holds |
| --- | --- |
| `sync` | futex calls, condition variables that count notifications |
| `primitives` | the three-state lock and its laws, a condition variable with a lock |
| `shared_message` | one payload, all reader counters in one word |
| `counted_message` | one payload, a counter word for each count |
| `zero_copy` | two buffers, written in turn |
| `container` | a message under a lock |
| `memory_mapper` | how a shared memory object is made, mapped and given back |
| `python` | handles, guards that are used like files, background threads |
| `tally` | counting users |

## What is trusted

`sync::futex` calls `rustix::thread::futex::wait` and `wake`. Nothing is claimed
of their results but their types.

The calls on live memory (`LiveMessage`, `LiveFutex`, `LiveCondvar` and the
others) state which access they make: on which word, with which arguments and
memory ordering, and how its result becomes the event that is handed back. They
do not state which value they find, whether a swap succeeds, or when a sleep
ends: other processes and the kernel decide that. Nor do they state that no other
access is made beside. The laws hold for whatever the
other processes do, as long as they run the same operations.
