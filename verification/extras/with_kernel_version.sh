#!/bin/sh
# Runs a build command with the version of the bundled kernel in its environment,
# so that the client knows which kernel it ships with:
#
#     sh extras/with_kernel_version.sh cargo tauri build
#
# The version is the content of resources/kernel.version, or `unknown`.
set -eu

root=$(cd "$(dirname "$0")/.." && pwd)
file="$root/resources/kernel.version"
if [ -r "$file" ]; then
    DSH_KERNEL_VERSION=$(tr -d '\r' < "$file" | sed -e 's/^[[:space:]]*//' -e 's/[[:space:]]*$//')
else
    DSH_KERNEL_VERSION=unknown
fi
export DSH_KERNEL_VERSION
exec "$@"
