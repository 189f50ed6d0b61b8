# nico

Verified core of the NICo site controller's models, agents and request handlers, written
in Verus.

- `src/` is the verified library. Each module states its behaviour as `requires`/`ensures`
  over spec functions and views, and the laws that relate several functions are public
  proof functions (`lemma_*`). Among them:
  - build version parsing and the agent upgrade policy (`upgrade_policy`);
  - the internal access rules of the API (`rbac`);
  - SKU comparison (`sku`);
  - BGP session health of the DPU agent (`bgp`);
  - log export (`otlp`);
  - the DNS server's decisions (`dns`);
  - client resolution for cloud-init and PXE (`client_resolution`);
  - TPM attestation (`attestation`);
  - and the smaller model types.
- Flows that alternate database or network work with decisions are written as step
  functions: from what has been learned so far to the next lookup or the outcome
  (`resolve_client_step`, `cloud_init_step`, `pxe_interface_step`,
  `trigger_attestation_step`, `ek_cert_check_step`, `attest_quote_step`, `query_step`).
- Calls into outside crates (regex, sha2, version-compare, hex, x509-parser, chrono,
  mac_address) and into std where vstd has no specification go through small trusted
  wrappers, each with a doc comment saying what its contract claims.
- `tests/` runs the library with the real outside crates linked.
- `app/` is the unverified edge: file and network I/O, serde and clap types, and the loops
  that drive the step functions.
