# oak_utils

Building blocks of a confidential-computing stack, written in Verus. What
the outside crates (OpenTelemetry, the UART driver, the cryptographic and
X.509 crates) do is trusted, not verified; the metrics and serial modules
state what the library hands to them.

- `digest`: SHA-256 digests of secret flags in lower-case hexadecimal.
- `crypto`: P-256 ECDSA verifying keys and their protocol-buffer form.
- `policy`: Confidential Space policies generated from reference values.
- `metrics`: the measurements each server event records, and what is
  handed to the OpenTelemetry instruments that receive them.
- `database`: the two-table blob store behind the test database service.
- `serial`: the bytes written to and read from the kernel's UART.
- `vmsa`: the initial VM save areas of an SEV-SNP guest's vCPUs.

`app/` holds the program that publishes a flag digest, the global metrics,
the async wrapper of the blob store and the locked kernel serial channel.
