# cameleon

The stream and feature logic of a GenICam camera host, written in Verus: every function of the
library states what it does in its contract, and the contracts are proved.

- `src/gige/` assembles the image blocks that a GigE Vision camera streams. `assembly` states what
  each packet does to the block that is being assembled and proves, for every run of packets that
  can be handled, that a block is handed on whole, in order and once, or not at all. `builder` and `streaming_loop` are
  the code that does it. `stream_handle` starts and stops the loop; `cancellation` holds the
  channel by which it is asked to stop, and `completion` what it sets once it has ended.
- `src/genapi/` holds the integer nodes of a camera's feature description. `integer` states where
  a node has its limits and its increment from when it declares none: from the node that it
  delegates its value to, as far as the delegation goes.
- `app/` is the part around the library that does input and output: the UDP socket, the thread of
  the streaming loop, the channels of the payloads, the reading of packets with `cameleon_device`
  and the reads and writes of integer nodes.

Where the library calls code that is not verified here, a declaration says what is taken for
granted: see `cancellation`, `completion` and the head of `stream_handle`.
