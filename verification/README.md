# nvme_telem

Typed NVMe telemetry for Linux, with the decoding logic verified in Verus.

- `src/` is the verified library. It turns the raw bytes that NVMe Admin
  commands return into records: the S.M.A.R.T./Health log (`smart`), the
  Error Information log (`error_log`), Identify Controller data
  (`identify`) and the OCP SMART Extended Log (`ocp`, with its GUID check).
  `bytes` holds the little-endian field decoding, `ascii` the cleaning of
  padded text fields, `command` the Admin command fields (CDW10 encoding),
  and `records` the properties that span the records.
- `app/` opens `/dev/nvme*`, issues the commands through the NVMe
  passthrough ioctl, and offers the `Device` handle and serializable copies
  of the records.
- `tests/` exercises the decoders on constructed log pages.

## Not provided

The Identify Controller category records `CtrlCapacity`,
`CtrlCapabilities`, `CtrlLimits`, `CtrlThermals`, `CtrlFirmware`,
`CtrlPowerStates`, `CtrlHostMemory`, `CtrlArbitration`, `CtrlDiagnostics`,
`CtrlAdvanced`, `CtrlCommandSets` and `CtrlFabric`, and the `Device`
accessors that return them (`capacity`, `capabilities`, `limits`,
`thermals`, `firmware`, `power_states`, `host_memory`, `arbitration`,
`diagnostics`, `advanced`, `command_sets`, `fabric`), are left out: the
definition of their fields is not available to this project. Of the
Identify Controller data, `CtrlIdentity` and the ELPE field (used for the
error log) are decoded.
